//! The particulate worker. The sensor wears out while it runs, so it runs one
//! minute in five: it is woken a minute before each report, asked for a
//! measurement every second of the last half minute, and put to sleep again
//! once the means of what it measured have been reported.

pub use crate::error::Error;
use crate::reading::{CompositeReading, LOCATION};
use crate::threads::SerialRead;
use crate::window::{mean_of, pushed, RollingWindow};
use vstd::prelude::*;
use vstd::string::*;

verus! {

/// The time between two ticks, in milliseconds.
pub const PERIOD_MS: u64 = 1000;

/// How long a read waits for data, in milliseconds.
pub const READ_TIMEOUT_MS: u64 = 250;

/// How long the sensor is given to answer a command, in milliseconds.
pub const SETTLE_MS: u64 = 500;

/// The most that one read takes from the line, in bytes.
pub const READ_BUFFER_LEN: usize = 20;

/// The tick of a cycle at which the sensor is woken.
pub const WAKE_TICK: u32 = 240;

/// The first tick of a cycle at which the sensor is asked for a measurement.
pub const FIRST_SAMPLE_TICK: u32 = 270;

/// The tick of a cycle at which the means are reported and the sensor is put
/// to sleep.
pub const REPORT_TICK: u32 = 300;

/// The number of samples that each window holds.
pub const SAMPLES_PER_REPORT: u32 = 30;

/// How often the sensor is told to report on request only before the worker
/// goes on without its confirmation.
pub const QUERY_MODE_ATTEMPTS: u8 = 3;

/// The length of a frame from the sensor, in bytes.
pub const FRAME_LEN: usize = 10;

/// What the worker tells the sensor.
#[derive(Clone, Copy, Debug, PartialEq, Eq, Structural)]
pub enum Command {
    /// Report on request only.
    QueryMode,
    /// Stop the fan and the laser.
    Sleep,
    /// Start the fan and the laser.
    Wake,
    /// Report a measurement.
    Query,
}

/// The three bytes that tell the commands apart.
pub open spec fn request(command: Command) -> (u8, u8, u8) {
    match command {
        Command::QueryMode => (0x02, 0x01, 0x01),
        Command::Sleep => (0x06, 0x01, 0x00),
        Command::Wake => (0x06, 0x01, 0x01),
        Command::Query => (0x04, 0x00, 0x00),
    }
}

/// The frame of a command: head, command byte, the three bytes of the
/// request, ten bytes that are not used, the address of all devices, the
/// sum of the fifteen bytes before it, and tail.
pub open spec fn command_bytes(command: Command) -> Seq<u8> {
    let r = request(command);
    seq![0xAAu8, 0xB4u8, r.0, r.1, r.2] + Seq::new(10, |i: int| 0u8) + seq![
        0xFFu8,
        0xFFu8,
        ((r.0 + r.1 + r.2 + 0xFF + 0xFF) % 256) as u8,
        0xABu8,
    ]
}

/// The sum of `bytes`.
pub open spec fn byte_sum(bytes: Seq<u8>) -> nat
    decreases bytes.len(),
{
    if bytes.len() == 0 {
        0
    } else {
        byte_sum(bytes.drop_last()) + bytes.last() as nat
    }
}

/// The frame of every command is nineteen bytes long and carries the sum of
/// its payload, which is how the sensor tells a command from noise.
pub proof fn lemma_command_frame(command: Command)
    ensures
        command_bytes(command).len() == 19,
        command_bytes(command)[0] == 0xAA,
        command_bytes(command)[1] == 0xB4,
        command_bytes(command)[18] == 0xAB,
        command_bytes(command)[17] == byte_sum(command_bytes(command).subrange(2, 17)) % 256,
{
    let frame = command_bytes(command);
    let r = request(command);
    let payload = frame.subrange(2, 17);
    assert(payload.len() == 15);
    assert(payload[0] == r.0 && payload[1] == r.1 && payload[2] == r.2);
    assert(forall|i: int| 3 <= i < 13 ==> payload[i] == 0);
    assert(payload[13] == 0xFF && payload[14] == 0xFF);
    lemma_byte_sum_of_payload(payload);
}

/// The sum of fifteen bytes of which the fourth to the thirteenth are zero.
proof fn lemma_byte_sum_of_payload(payload: Seq<u8>)
    requires
        payload.len() == 15,
        forall|i: int| 3 <= i < 13 ==> payload[i] == 0,
    ensures
        byte_sum(payload) == payload[0] + payload[1] + payload[2] + payload[13] + payload[14],
{
    reveal_with_fuel(byte_sum, 16);
}

/// Whether `response` confirms `command`: it is one frame long, it is marked
/// as the answer to a command, and it repeats the request.
pub open spec fn confirms(response: Seq<u8>, command: Command) -> bool {
    &&& response.len() == FRAME_LEN
    &&& response[1] == 0xC5
    &&& response[2] == request(command).0
    &&& response[3] == request(command).1
    &&& response[4] == request(command).2
}

/// What the sensor measured.
#[derive(Clone, Copy, Debug, PartialEq, Eq, Structural)]
pub struct Measurement {
    /// Fine particulate matter, in tenths of a microgram per cubic metre.
    pub pm2_5: u16,
    /// Coarse particulate matter, in tenths of a microgram per cubic metre.
    pub pm10: u16,
}

/// Whether a whole frame that is marked as a measurement starts at `at`.
pub open spec fn frame_at(bytes: Seq<u8>, at: int) -> bool {
    &&& 0 <= at
    &&& at + FRAME_LEN <= bytes.len()
    &&& bytes[at] == 0xAA
    &&& bytes[at + 1] == 0xC0
}

/// The first place from `from` on at which a measurement frame starts, or
/// the length of `bytes` if there is none.
pub open spec fn first_frame(bytes: Seq<u8>, from: int) -> int
    decreases bytes.len() - from,
{
    if from < 0 || from + FRAME_LEN > bytes.len() {
        bytes.len() as int
    } else if frame_at(bytes, from) {
        from
    } else {
        first_frame(bytes, from + 1)
    }
}

/// The measurement that the frame at `at` carries: each number low byte
/// first.
pub open spec fn measurement_at(bytes: Seq<u8>, at: int) -> Measurement {
    Measurement {
        pm2_5: (bytes[at + 3] * 256 + bytes[at + 2]) as u16,
        pm10: (bytes[at + 5] * 256 + bytes[at + 4]) as u16,
    }
}

/// The measurement that `bytes` carry. What was read need not start at the
/// start of a frame: everything before the first measurement frame is passed
/// over.
pub open spec fn measurement_of(bytes: Seq<u8>) -> Option<Measurement> {
    let at = first_frame(bytes, 0);
    if at < bytes.len() {
        Some(measurement_at(bytes, at))
    } else {
        None
    }
}

/// The first frame is where a frame starts that none starts before.
pub proof fn lemma_first_frame(bytes: Seq<u8>, from: int)
    requires
        0 <= from,
    ensures
        from <= first_frame(bytes, from) || first_frame(bytes, from) == bytes.len(),
        first_frame(bytes, from) < bytes.len() ==> frame_at(bytes, first_frame(bytes, from)),
        forall|j: int| from <= j < first_frame(bytes, from) ==> !frame_at(bytes, j),
    decreases bytes.len() - from,
{
    if from + FRAME_LEN <= bytes.len() && !frame_at(bytes, from) {
        lemma_first_frame(bytes, from + 1);
    }
}

/// The three bytes that tell `command` from the others.
fn request_of(command: Command) -> (r: (u8, u8, u8))
    ensures
        r == request(command),
{
    match command {
        Command::QueryMode => (0x02, 0x01, 0x01),
        Command::Sleep => (0x06, 0x01, 0x00),
        Command::Wake => (0x06, 0x01, 0x01),
        Command::Query => (0x04, 0x00, 0x00),
    }
}

/// The frame of `command`.
pub fn command_frame(command: Command) -> (frame: Vec<u8>)
    ensures
        frame@ == command_bytes(command),
{
    let (id, first, second): (u8, u8, u8) = request_of(command);
    let sum: u32 = id as u32 + first as u32 + second as u32 + 0xFF + 0xFF;
    let frame: Vec<u8> = vec![
        0xAA,
        0xB4,
        id,
        first,
        second,
        0,
        0,
        0,
        0,
        0,
        0,
        0,
        0,
        0,
        0,
        0xFF,
        0xFF,
        (sum % 256) as u8,
        0xAB,
    ];
    assert(frame@ =~= command_bytes(command));
    frame
}

/// Whether `response` confirms `command`.
pub fn is_confirmation(response: &[u8], command: Command) -> (b: bool)
    ensures
        b == confirms(response@, command),
{
    if response.len() != FRAME_LEN {
        return false;
    }
    let (id, first, second): (u8, u8, u8) = request_of(command);
    response[1] == 0xC5 && response[2] == id && response[3] == first && response[4] == second
}

/// The measurement that `bytes` carry.
pub fn parse_measurement(bytes: &[u8]) -> (m: Option<Measurement>)
    ensures
        m == measurement_of(bytes@),
{
    let len: usize = bytes.len();
    if len < FRAME_LEN {
        return None;
    }
    let last: usize = len - FRAME_LEN;
    let mut at: usize = 0;
    while at <= last
        invariant
            len == bytes.len(),
            last == len - FRAME_LEN,
            at <= last + 1,
            first_frame(bytes@, 0) == first_frame(bytes@, at as int),
        decreases last + 1 - at,
    {
        if bytes[at] == 0xAA && bytes[at + 1] == 0xC0 {
            let pm2_5: u16 = bytes[at + 3] as u16 * 256 + bytes[at + 2] as u16;
            let pm10: u16 = bytes[at + 5] as u16 * 256 + bytes[at + 4] as u16;
            return Some(Measurement { pm2_5, pm10 });
        }
        at = at + 1;
    }
    None
}

/// The failure to set up the serial line, which the line describes as `detail`.
pub fn port_error(detail: &str) -> (e: Error)
    ensures
        e@ == detail@,
{
    Error::new(String::from_str(detail))
}

/// Where the dialogue stands that prepares the sensor.
#[derive(Clone, Copy, Debug, PartialEq, Eq, Structural)]
pub enum Startup {
    /// The sensor is to be told to report on request only; this is the
    /// attempt with this number, counted from one.
    QueryMode(u8),
    /// The sensor is to be put to sleep.
    PowerDown,
    /// The worker can start.
    Ready,
}

/// What the worker sends at `state`, if anything.
pub open spec fn startup_request(state: Startup) -> Option<Command> {
    match state {
        Startup::QueryMode(_) => Some(Command::QueryMode),
        Startup::PowerDown => Some(Command::Sleep),
        Startup::Ready => None,
    }
}

/// Where the dialogue goes from `state` once the sensor has answered, or has
/// failed to: `confirmed` says whether it confirmed what was sent. The mode
/// is asked for until it is confirmed, three times at most; the sleep is
/// asked for once.
pub open spec fn startup_after(state: Startup, confirmed: bool) -> Startup {
    match state {
        Startup::QueryMode(n) => if confirmed || n >= QUERY_MODE_ATTEMPTS {
            Startup::PowerDown
        } else {
            Startup::QueryMode((n + 1) as u8)
        },
        Startup::PowerDown => Startup::Ready,
        Startup::Ready => Startup::Ready,
    }
}

impl Startup {
    /// Where the dialogue starts.
    pub fn begin() -> (s: Startup)
        ensures
            s == Startup::QueryMode(1),
    {
        Startup::QueryMode(1)
    }

    /// What the worker sends now, if anything.
    pub fn request(&self) -> (c: Option<Command>)
        ensures
            c == startup_request(*self),
    {
        match self {
            Startup::QueryMode(_) => Some(Command::QueryMode),
            Startup::PowerDown => Some(Command::Sleep),
            Startup::Ready => None,
        }
    }

    /// Where the dialogue goes once the sensor has answered, or has failed to.
    pub fn next(&self, confirmed: bool) -> (s: Startup)
        ensures
            s == startup_after(*self, confirmed),
    {
        match self {
            Startup::QueryMode(n) => {
                if confirmed || *n >= QUERY_MODE_ATTEMPTS {
                    Startup::PowerDown
                } else {
                    Startup::QueryMode(*n + 1)
                }
            },
            Startup::PowerDown => Startup::Ready,
            Startup::Ready => Startup::Ready,
        }
    }
}

/// What the worker does at one tick.
#[derive(Clone, Copy, Debug, PartialEq, Eq, Structural)]
pub enum Phase {
    /// Nothing: the sensor sleeps, or warms up.
    Idle,
    /// Wake the sensor.
    WarmUp,
    /// Ask the sensor for a measurement.
    Sample,
    /// Report the means and put the sensor to sleep.
    Report,
}

/// What the worker does at the tick at which its count stands at `counter`.
pub open spec fn phase_of(counter: u32) -> Phase {
    if counter >= REPORT_TICK {
        Phase::Report
    } else if counter >= FIRST_SAMPLE_TICK {
        Phase::Sample
    } else if counter == WAKE_TICK {
        Phase::WarmUp
    } else {
        Phase::Idle
    }
}

/// The count of the tick after the one at which it stands at `counter`: a
/// report starts the cycle over.
pub open spec fn next_counter(counter: u32) -> u32 {
    if counter >= REPORT_TICK {
        1
    } else {
        (counter + 1) as u32
    }
}

/// The count once `ticks` more ticks have passed.
pub open spec fn counter_after(counter: u32, ticks: nat) -> u32
    decreases ticks,
{
    if ticks == 0 {
        counter
    } else {
        next_counter(counter_after(counter, (ticks - 1) as nat))
    }
}

/// Within a cycle the count goes up by one with every tick.
pub proof fn lemma_counter_within_cycle(counter: u32, ticks: nat)
    requires
        counter + ticks <= REPORT_TICK,
    ensures
        counter_after(counter, ticks) == counter + ticks,
    decreases ticks,
{
    if ticks > 0 {
        lemma_counter_within_cycle(counter, (ticks - 1) as nat);
    }
}

/// The duty cycle: a cycle is three hundred ticks long. Counted from the
/// tick after a report, the sensor is woken at the tick before the last
/// minute, asked for a measurement at each of the last thirty ticks before
/// the report, and at no other tick.
pub proof fn lemma_duty_cycle(tick: nat)
    requires
        1 <= tick <= REPORT_TICK,
    ensures
        counter_after(1, (tick - 1) as nat) == tick,
        counter_after(1, REPORT_TICK as nat) == 1,
        phase_of(tick as u32) == if tick == REPORT_TICK {
            Phase::Report
        } else if tick >= REPORT_TICK - SAMPLES_PER_REPORT {
            Phase::Sample
        } else if tick == REPORT_TICK - 60 {
            Phase::WarmUp
        } else {
            Phase::Idle
        },
{
    lemma_counter_within_cycle(1, (tick - 1) as nat);
    lemma_counter_within_cycle(1, (REPORT_TICK - 1) as nat);
}

/// What one request for a measurement came to.
#[derive(Clone, Copy, Debug, PartialEq, Eq, Structural)]
pub enum Intake {
    /// A measurement was read.
    Sample(Measurement),
    /// What was read holds no measurement frame.
    Rejected,
    /// Nothing arrived in time.
    Quiet,
    /// The port failed: worth a warning, and nothing else.
    PortFailed,
}

/// What a read of the serial line comes to.
pub open spec fn intake_of(read: SerialRead<Vec<u8>>) -> Intake {
    match read {
        SerialRead::Data(bytes) => match measurement_of(bytes@) {
            Some(m) => Intake::Sample(m),
            None => Intake::Rejected,
        },
        SerialRead::TimedOut => Intake::Quiet,
        SerialRead::Failed => Intake::PortFailed,
    }
}

/// The 16-bit signed number with the same low sixteen bits as `mean`, which
/// is the form in which a mean is put on the wire.
pub open spec fn wire_value(mean: nat) -> i16 {
    let low = mean % 0x1_0000;
    if low < 0x8000 {
        low as i16
    } else {
        (low - 0x1_0000) as i16
    }
}

/// What is reported at `timestamp` from the two windows: the mean of each,
/// and nothing while there is no sample.
pub open spec fn report_of(timestamp: u64, pm2_5: Seq<u32>, pm10: Seq<u32>) -> Option<
    CompositeReading,
> {
    if pm2_5.len() > 0 && pm10.len() > 0 {
        Some(
            CompositeReading::Particulate {
                timestamp,
                location: LOCATION,
                pm2_5: wire_value(mean_of(pm2_5)),
                pm10: wire_value(mean_of(pm10)),
            },
        )
    } else {
        None
    }
}

/// What the particulate worker knows.
pub struct Sds011State {
    /// The tick of the cycle.
    pub counter: u32,
    /// The fine particulate samples, newest first.
    pub pm2_5: Seq<u32>,
    /// The coarse particulate samples, newest first.
    pub pm10: Seq<u32>,
    /// The number of fine particulate samples that there is room for.
    pub pm2_5_capacity: nat,
    /// The number of coarse particulate samples that there is room for.
    pub pm10_capacity: nat,
}

/// The particulate worker.
pub struct Sds011 {
    counter: u32,
    pm2_5: RollingWindow<u32>,
    pm10: RollingWindow<u32>,
}

impl View for Sds011 {
    type V = Sds011State;

    closed spec fn view(&self) -> Sds011State {
        Sds011State {
            counter: self.counter,
            pm2_5: self.pm2_5@,
            pm10: self.pm10@,
            pm2_5_capacity: self.pm2_5.room(),
            pm10_capacity: self.pm10.room(),
        }
    }
}

/// The 16-bit signed number with the same low sixteen bits as `mean`.
fn to_wire(mean: u32) -> (v: i16)
    ensures
        v == wire_value(mean as nat),
{
    let low: u32 = mean % 0x1_0000;
    if low < 0x8000 {
        low as i16
    } else {
        (low as i32 - 0x1_0000) as i16
    }
}

impl Sds011 {
    /// A worker at the start of its first cycle, with nothing sampled.
    pub fn new() -> (s: Sds011)
        ensures
            s@ == (Sds011State {
                counter: 0,
                pm2_5: Seq::<u32>::empty(),
                pm10: Seq::<u32>::empty(),
                pm2_5_capacity: SAMPLES_PER_REPORT as nat,
                pm10_capacity: SAMPLES_PER_REPORT as nat,
            }),
    {
        Sds011 {
            counter: 0,
            pm2_5: RollingWindow::new(SAMPLES_PER_REPORT as usize),
            pm10: RollingWindow::new(SAMPLES_PER_REPORT as usize),
        }
    }

    /// The fine particulate samples held, newest first.
    pub fn pm2_5_samples(&self) -> (v: Vec<u32>)
        ensures
            v@ == self@.pm2_5,
    {
        self.pm2_5.samples()
    }

    /// The coarse particulate samples held, newest first.
    pub fn pm10_samples(&self) -> (v: Vec<u32>)
        ensures
            v@ == self@.pm10,
    {
        self.pm10.samples()
    }

    /// One tick: says what is to be done at this tick, and counts it.
    pub fn tick(&mut self) -> (phase: Phase)
        ensures
            phase == phase_of(old(self)@.counter),
            final(self)@ == (Sds011State { counter: next_counter(old(self)@.counter), ..old(self)@ }),
    {
        let counter: u32 = self.counter;
        let phase = if counter >= REPORT_TICK {
            Phase::Report
        } else if counter >= FIRST_SAMPLE_TICK {
            Phase::Sample
        } else if counter == WAKE_TICK {
            Phase::WarmUp
        } else {
            Phase::Idle
        };
        if counter >= REPORT_TICK {
            self.counter = 1;
        } else {
            self.counter = counter + 1;
        }
        phase
    }

    /// Takes what the sensor answered to a request for a measurement. A
    /// measurement goes into the windows; anything else leaves them alone.
    pub fn on_measurement(&mut self, read: SerialRead<Vec<u8>>) -> (intake: Intake)
        ensures
            intake == intake_of(read),
            final(self)@ == match intake_of(read) {
                Intake::Sample(m) => Sds011State {
                    pm2_5: pushed(old(self)@.pm2_5, old(self)@.pm2_5_capacity, m.pm2_5 as u32),
                    pm10: pushed(old(self)@.pm10, old(self)@.pm10_capacity, m.pm10 as u32),
                    ..old(self)@
                },
                _ => old(self)@,
            },
    {
        let intake = match read {
            SerialRead::Data(bytes) => match parse_measurement(bytes.as_slice()) {
                Some(m) => Intake::Sample(m),
                None => Intake::Rejected,
            },
            SerialRead::TimedOut => Intake::Quiet,
            SerialRead::Failed => Intake::PortFailed,
        };
        if let Intake::Sample(m) = intake {
            self.pm2_5.push(m.pm2_5 as u32);
            self.pm10.push(m.pm10 as u32);
        }
        intake
    }

    /// What is reported at `now_ms`: the means of what the windows hold.
    pub fn report(&self, now_ms: u64) -> (reading: Option<CompositeReading>)
        ensures
            reading == report_of(now_ms, self@.pm2_5, self@.pm10),
    {
        match (self.pm2_5.mean(), self.pm10.mean()) {
            (Some(fine), Some(coarse)) => Some(
                CompositeReading::Particulate {
                    timestamp: now_ms,
                    location: LOCATION,
                    pm2_5: to_wire(fine),
                    pm10: to_wire(coarse),
                },
            ),
            _ => None,
        }
    }
}

} // verus!
