use indoor_sensors::reading::CompositeReading;
use indoor_sensors::threads::sds011::{
    command_frame, is_confirmation, parse_measurement, port_error, Command, Intake, Measurement,
    Phase, Sds011, Startup,
};
use indoor_sensors::threads::SerialRead;

#[test]
fn command_frames_are_those_of_the_data_sheet() {
    assert_eq!(
        command_frame(Command::QueryMode),
        vec![0xAA, 0xB4, 0x02, 0x01, 0x01, 0, 0, 0, 0, 0, 0, 0, 0, 0, 0, 0xFF, 0xFF, 0x02, 0xAB]
    );
    assert_eq!(
        command_frame(Command::Sleep),
        vec![0xAA, 0xB4, 0x06, 0x01, 0x00, 0, 0, 0, 0, 0, 0, 0, 0, 0, 0, 0xFF, 0xFF, 0x05, 0xAB]
    );
    assert_eq!(
        command_frame(Command::Wake),
        vec![0xAA, 0xB4, 0x06, 0x01, 0x01, 0, 0, 0, 0, 0, 0, 0, 0, 0, 0, 0xFF, 0xFF, 0x06, 0xAB]
    );
    assert_eq!(
        command_frame(Command::Query),
        vec![0xAA, 0xB4, 0x04, 0x00, 0x00, 0, 0, 0, 0, 0, 0, 0, 0, 0, 0, 0xFF, 0xFF, 0x02, 0xAB]
    );
}

#[test]
fn command_frames_carry_the_sum_of_their_payload() {
    for c in [Command::QueryMode, Command::Sleep, Command::Wake, Command::Query].iter() {
        let frame = command_frame(*c);
        assert_eq!(frame.len(), 19);
        let sum: u32 = frame[2..17].iter().map(|b| *b as u32).sum();
        assert_eq!(frame[17] as u32, sum % 256);
    }
}

#[test]
fn confirmation_repeats_the_request() {
    let wake = [0xAA, 0xC5, 0x06, 0x01, 0x01, 0x00, 0xA1, 0x60, 0x09, 0xAB];
    assert!(is_confirmation(&wake, Command::Wake));
    assert!(!is_confirmation(&wake, Command::Sleep));
    assert!(!is_confirmation(&wake, Command::QueryMode));
    let sleep = [0xAA, 0xC5, 0x06, 0x01, 0x00, 0x00, 0xA1, 0x60, 0x08, 0xAB];
    assert!(is_confirmation(&sleep, Command::Sleep));
    let mode = [0xAA, 0xC5, 0x02, 0x01, 0x01, 0x00, 0xA1, 0x60, 0x05, 0xAB];
    assert!(is_confirmation(&mode, Command::QueryMode));
}

#[test]
fn confirmation_is_one_frame_long() {
    let wake = [0xAA, 0xC5, 0x06, 0x01, 0x01, 0x00, 0xA1, 0x60, 0x09, 0xAB];
    assert!(!is_confirmation(&wake[..9], Command::Wake));
    assert!(!is_confirmation(&[], Command::Wake));
    let mut long = wake.to_vec();
    long.push(0);
    assert!(!is_confirmation(&long, Command::Wake));
}

#[test]
fn measurement_is_not_a_confirmation() {
    let data = [0xAA, 0xC0, 0x06, 0x01, 0x01, 0x00, 0xA1, 0x60, 0x09, 0xAB];
    assert!(!is_confirmation(&data, Command::Wake));
}

#[test]
fn measurement_is_read_low_byte_first() {
    let frame = [0xAA, 0xC0, 0xD4, 0x04, 0x3A, 0x0A, 0xA1, 0x60, 0x1D, 0xAB];
    assert_eq!(parse_measurement(&frame), Some(Measurement { pm2_5: 1236, pm10: 2618 }));
    let frame = [0xAA, 0xC0, 0xFF, 0xFF, 0x00, 0x00, 0, 0, 0, 0xAB];
    assert_eq!(parse_measurement(&frame), Some(Measurement { pm2_5: 65535, pm10: 0 }));
}

#[test]
fn measurement_is_found_behind_a_partial_packet() {
    let bytes = [
        0x60, 0x1D, 0xAB, 0xAA, 0xC0, 0x0C, 0x00, 0x22, 0x00, 0xA1, 0x60, 0x2F, 0xAB, 0xAA, 0xC0,
    ];
    assert_eq!(parse_measurement(&bytes), Some(Measurement { pm2_5: 12, pm10: 34 }));
}

#[test]
fn first_whole_frame_counts() {
    let mut bytes = vec![0xAA, 0xC0, 1, 0, 2, 0, 0, 0, 3, 0xAB];
    bytes.extend_from_slice(&[0xAA, 0xC0, 9, 0, 9, 0, 0, 0, 18, 0xAB]);
    assert_eq!(parse_measurement(&bytes), Some(Measurement { pm2_5: 1, pm10: 2 }));
}

#[test]
fn partial_packet_holds_no_measurement() {
    assert_eq!(parse_measurement(&[]), None);
    assert_eq!(parse_measurement(&[0xAA, 0xC0, 1, 0, 2, 0, 0, 0, 3]), None);
    assert_eq!(parse_measurement(&[0, 0xAA, 0xC0, 1, 0, 2, 0, 0, 0, 3]), None);
    assert_eq!(parse_measurement(&[0xAA, 0xC5, 0x06, 0x01, 0x01, 0, 0, 0, 0, 0xAB]), None);
    assert_eq!(parse_measurement(&[0xC0, 0xAA, 1, 0, 2, 0, 0, 0, 3, 0xAB, 0, 0]), None);
}

#[test]
fn startup_asks_for_the_mode_until_it_is_confirmed() {
    let s = Startup::begin();
    assert_eq!(s, Startup::QueryMode(1));
    assert_eq!(s.request(), Some(Command::QueryMode));
    assert_eq!(s.next(true), Startup::PowerDown);
    assert_eq!(s.next(false), Startup::QueryMode(2));
    assert_eq!(Startup::QueryMode(2).next(false), Startup::QueryMode(3));
    assert_eq!(Startup::QueryMode(2).next(true), Startup::PowerDown);
}

#[test]
fn startup_gives_up_on_the_mode_after_three_attempts() {
    assert_eq!(Startup::QueryMode(3).next(false), Startup::PowerDown);
    let mut s = Startup::begin();
    let mut sent: u32 = 0;
    while s.request() == Some(Command::QueryMode) {
        sent += 1;
        s = s.next(false);
    }
    assert_eq!(sent, 3);
    assert_eq!(s, Startup::PowerDown);
}

#[test]
fn startup_puts_the_sensor_to_sleep_once() {
    assert_eq!(Startup::PowerDown.request(), Some(Command::Sleep));
    assert_eq!(Startup::PowerDown.next(true), Startup::Ready);
    assert_eq!(Startup::PowerDown.next(false), Startup::Ready);
    assert_eq!(Startup::Ready.request(), None);
    assert_eq!(Startup::Ready.next(false), Startup::Ready);
}

#[test]
fn sensor_runs_one_minute_in_five() {
    let mut w = Sds011::new();
    assert_eq!(w.tick(), Phase::Idle);
    let mut cycle: u32 = 0;
    while cycle < 3 {
        let mut tick: u32 = 1;
        while tick <= 300 {
            let phase = w.tick();
            let expected = if tick == 300 {
                Phase::Report
            } else if tick >= 270 {
                Phase::Sample
            } else if tick == 240 {
                Phase::WarmUp
            } else {
                Phase::Idle
            };
            assert_eq!(phase, expected, "tick {} of cycle {}", tick, cycle);
            tick += 1;
        }
        cycle += 1;
    }
}

#[test]
fn a_cycle_samples_thirty_times() {
    let mut w = Sds011::new();
    w.tick();
    let mut samples: u32 = 0;
    let mut wakes: u32 = 0;
    let mut reports: u32 = 0;
    let mut tick: u32 = 0;
    while tick < 3000 {
        match w.tick() {
            Phase::Sample => samples += 1,
            Phase::WarmUp => wakes += 1,
            Phase::Report => reports += 1,
            Phase::Idle => {}
        }
        tick += 1;
    }
    assert_eq!(reports, 10);
    assert_eq!(wakes, 10);
    assert_eq!(samples, 300);
}

fn data(pm2_5: u16, pm10: u16) -> SerialRead<Vec<u8>> {
    SerialRead::Data(vec![
        0xAA,
        0xC0,
        (pm2_5 & 0xFF) as u8,
        (pm2_5 >> 8) as u8,
        (pm10 & 0xFF) as u8,
        (pm10 >> 8) as u8,
        0xA1,
        0x60,
        0,
        0xAB,
    ])
}

#[test]
fn report_is_the_mean_of_the_trailing_window() {
    let mut w = Sds011::new();
    assert_eq!(w.report(5), None);
    let mut n: u16 = 1;
    while n <= 30 {
        assert_eq!(
            w.on_measurement(data(100 + n, 200 + 2 * n)),
            Intake::Sample(Measurement { pm2_5: 100 + n, pm10: 200 + 2 * n })
        );
        n += 1;
    }
    assert_eq!(
        w.report(77),
        Some(CompositeReading::Particulate { timestamp: 77, location: 2, pm2_5: 115, pm10: 231 })
    );
    assert_eq!(w.pm2_5_samples().len(), 30);
    assert_eq!(w.pm10_samples()[0], 260);
}

#[test]
fn a_new_cycle_pushes_the_old_samples_out() {
    let mut w = Sds011::new();
    let mut n: u16 = 0;
    while n < 30 {
        w.on_measurement(data(1000, 2000));
        n += 1;
    }
    n = 0;
    while n < 30 {
        w.on_measurement(data(10, 20));
        n += 1;
    }
    assert_eq!(
        w.report(1),
        Some(CompositeReading::Particulate { timestamp: 1, location: 2, pm2_5: 10, pm10: 20 })
    );
}

#[test]
fn what_is_no_measurement_leaves_the_windows_alone() {
    let mut w = Sds011::new();
    assert_eq!(w.on_measurement(SerialRead::TimedOut), Intake::Quiet);
    assert_eq!(w.on_measurement(SerialRead::Failed), Intake::PortFailed);
    assert_eq!(w.on_measurement(SerialRead::Data(vec![1, 2, 3])), Intake::Rejected);
    assert!(w.pm2_5_samples().is_empty());
    assert!(w.pm10_samples().is_empty());
    assert_eq!(w.report(1), None);
}

#[test]
fn large_means_wrap_into_sixteen_signed_bits() {
    let mut w = Sds011::new();
    w.on_measurement(data(32767, 32768));
    assert_eq!(
        w.report(1),
        Some(CompositeReading::Particulate {
            timestamp: 1,
            location: 2,
            pm2_5: 32767,
            pm10: 32768u32 as i16,
        })
    );
    let mut w = Sds011::new();
    w.on_measurement(data(65535, 40000));
    assert_eq!(
        w.report(1),
        Some(CompositeReading::Particulate {
            timestamp: 1,
            location: 2,
            pm2_5: -1,
            pm10: 40000i32 as i16,
        })
    );
}

#[test]
fn particulate_line_fault_is_put_in_words() {
    assert_eq!(port_error("Device or resource busy").message(), "Device or resource busy");
}
