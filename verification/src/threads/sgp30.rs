//! The gas sensor worker. The sensor is measured every second, because its
//! own baseline tracking needs that, but reported once a minute: the means
//! of the last minute. With each report the sensor is corrected by the
//! humidity that was published last, and its baseline is saved.

use crate::baseline::{baseline_of, Baseline};
pub use crate::error::Error;
use crate::guard::Access;
use crate::reading::{mean_reading, said, Quantity, SensorReading};
use crate::text::ParseFault;
use crate::threads::{BusClient, BusStep};
use crate::window::{pushed, RollingWindow};
use vstd::prelude::*;
use vstd::string::*;

verus! {

/// How long one measurement takes, in milliseconds.
pub const MEASUREMENT_MS: u64 = 12;

/// The time that the worker sleeps between two measurements, in
/// milliseconds: with the measurement itself, a second.
pub const PERIOD_MS: u64 = 1000 - MEASUREMENT_MS;

/// The address of the sensor on the bus.
pub const ADDRESS: u8 = 0x58;

/// The number of samples that each window holds, and the number of ticks
/// between two reports.
pub const SAMPLES_PER_REPORT: u32 = 60;

/// What can go wrong in the gas sensor's driver.
#[derive(Debug)]
pub enum Sgp30Fault {
    /// The bus failed; the words are the bus's.
    I2c(String),
    /// What the sensor sent fails its checksum.
    Crc,
    /// The sensor was measured before it was set up.
    NotInitialized,
}

/// The words for `fault`.
pub open spec fn fault_text(fault: Sgp30Fault) -> Seq<char> {
    match fault {
        Sgp30Fault::I2c(detail) => "SGP30 I2C Error: "@ + detail@,
        Sgp30Fault::Crc => "CRC Error"@,
        Sgp30Fault::NotInitialized => "Not Initialized"@,
    }
}

/// The words for a baseline file that holds no number that fits.
pub open spec fn parse_fault_text(fault: ParseFault) -> Seq<char> {
    match fault {
        ParseFault::Empty => "cannot parse integer from empty string"@,
        ParseFault::InvalidDigit => "invalid digit found in string"@,
        ParseFault::TooLarge => "number too large to fit in target type"@,
    }
}

/// The failure to open the bus, which the bus describes as `detail`.
pub fn bus_error(detail: &str) -> (e: Error)
    ensures
        e@ == "I2C Error: "@ + detail@,
{
    Error::prefixed("I2C Error: ", detail)
}

/// The failure of the driver with `fault`.
pub fn driver_error(fault: Sgp30Fault) -> (e: Error)
    ensures
        e@ == fault_text(fault),
{
    match fault {
        Sgp30Fault::I2c(detail) => Error::prefixed("SGP30 I2C Error: ", detail.as_str()),
        Sgp30Fault::Crc => Error::new(String::from_str("CRC Error")),
        Sgp30Fault::NotInitialized => Error::new(String::from_str("Not Initialized")),
    }
}

/// The failure to read a baseline file, which the file system describes as `detail`.
pub fn file_error(detail: &str) -> (e: Error)
    ensures
        e@ == detail@,
{
    Error::new(String::from_str(detail))
}

/// The failure to find a number in a baseline file.
pub fn parse_error(fault: ParseFault) -> (e: Error)
    ensures
        e@ == parse_fault_text(fault),
{
    match fault {
        ParseFault::Empty => Error::new(String::from_str("cannot parse integer from empty string")),
        ParseFault::InvalidDigit => Error::new(String::from_str("invalid digit found in string")),
        ParseFault::TooLarge => Error::new(
            String::from_str("number too large to fit in target type"),
        ),
    }
}

/// The baseline that the texts of the two baseline files stand for.
pub fn read_baseline(co2_text: &str, tvoc_text: &str) -> (r: Result<Baseline, Error>)
    ensures
        match r {
            Ok(b) => baseline_of(co2_text@, tvoc_text@) == Ok::<Baseline, ParseFault>(b),
            Err(e) => baseline_of(co2_text@, tvoc_text@) matches Err(fault) && e@
                == parse_fault_text(fault),
        },
{
    match Baseline::parse(co2_text, tvoc_text) {
        Ok(b) => Ok(b),
        Err(fault) => Err(parse_error(fault)),
    }
}

/// What the sensor measured: the carbon dioxide equivalent, in parts per
/// million, and the volatile organic compounds, in parts per billion.
#[derive(Clone, Copy, Debug, PartialEq, Eq, Structural)]
pub struct GasSample {
    pub co2eq_ppm: u16,
    pub tvoc_ppb: u16,
}

/// What is reported once a minute. A quantity of which there is no sample
/// is left out.
#[derive(Debug)]
pub struct GasReport {
    pub co2: Option<SensorReading>,
    pub voc: Option<SensorReading>,
}

/// What the gas sensor worker knows.
pub struct Sgp30State {
    /// The ticks since the last report, this one included.
    pub counter: u32,
    /// The carbon dioxide samples of the last minute, newest first.
    pub co2: Seq<u32>,
    /// The volatile organic compounds samples of the last minute, newest first.
    pub voc: Seq<u32>,
    /// The number of carbon dioxide samples that there is room for.
    pub co2_capacity: nat,
    /// The number of volatile organic compounds samples that there is room for.
    pub voc_capacity: nat,
    /// The number by which the guard knows this worker.
    pub worker: u32,
    /// Whether the worker has met a broken guard.
    pub halted: bool,
}

/// The gas sensor worker.
pub struct Sgp30 {
    bus: BusClient,
    counter: u32,
    co2: RollingWindow<u32>,
    voc: RollingWindow<u32>,
}

impl View for Sgp30 {
    type V = Sgp30State;

    closed spec fn view(&self) -> Sgp30State {
        Sgp30State {
            counter: self.counter,
            co2: self.co2@,
            voc: self.voc@,
            co2_capacity: self.co2.room(),
            voc_capacity: self.voc.room(),
            worker: self.bus.number(),
            halted: self.bus.halted(),
        }
    }
}

/// Whether a report is due at this tick.
pub open spec fn report_due(state: Sgp30State) -> bool {
    state.counter >= SAMPLES_PER_REPORT
}

/// What the worker knows after a tick at which it knew `state`: a sample, if
/// there is one, has gone into the windows, and the tick is counted.
pub open spec fn after_tick(state: Sgp30State, sample: Option<GasSample>) -> Sgp30State {
    Sgp30State {
        counter: if report_due(state) {
            1u32
        } else {
            (state.counter + 1) as u32
        },
        co2: match sample {
            Some(s) => pushed(state.co2, state.co2_capacity, s.co2eq_ppm as u32),
            None => state.co2,
        },
        voc: match sample {
            Some(s) => pushed(state.voc, state.voc_capacity, s.tvoc_ppb as u32),
            None => state.voc,
        },
        ..state
    }
}

impl Sgp30 {
    /// The worker that the guard knows as `worker`, with nothing sampled.
    pub fn new(worker: u32) -> (w: Sgp30)
        ensures
            w@ == (Sgp30State {
                counter: 1,
                co2: Seq::<u32>::empty(),
                voc: Seq::<u32>::empty(),
                co2_capacity: SAMPLES_PER_REPORT as nat,
                voc_capacity: SAMPLES_PER_REPORT as nat,
                worker,
                halted: false,
            }),
    {
        Sgp30 {
            bus: BusClient::new(worker),
            counter: 1,
            co2: RollingWindow::new(SAMPLES_PER_REPORT as usize),
            voc: RollingWindow::new(SAMPLES_PER_REPORT as usize),
        }
    }

    /// Whether the worker has met a broken guard.
    pub fn is_halted(&self) -> (b: bool)
        ensures
            b == self@.halted,
    {
        self.bus.is_halted()
    }

    /// The number by which the guard knows this worker.
    pub fn worker(&self) -> (w: u32)
        ensures
            w == self@.worker,
    {
        self.bus.worker()
    }

    /// The carbon dioxide samples held, newest first.
    pub fn co2_samples(&self) -> (v: Vec<u32>)
        ensures
            v@ == self@.co2,
    {
        self.co2.samples()
    }

    /// The volatile organic compounds samples held, newest first.
    pub fn voc_samples(&self) -> (v: Vec<u32>)
        ensures
            v@ == self@.voc,
    {
        self.voc.samples()
    }

    /// What the worker does now that the guard has answered `access`.
    pub fn on_access(&mut self, access: Access) -> (step: BusStep)
        ensures
            final(self)@ == (Sgp30State {
                halted: old(self)@.halted || access == Access::Broken,
                ..old(self)@
            }),
            step.follows(old(self)@.halted, access),
    {
        self.bus.on_access(access)
    }

    /// One tick: takes the measurement of this second, or `None` if it
    /// failed, and reports once a minute. When a report is due, it holds the
    /// means of what the windows hold, at `now_ms`; the count of ticks
    /// starts over, the windows stay.
    pub fn on_tick(&mut self, sample: Option<GasSample>, now_ms: u64) -> (report: Option<GasReport>)
        ensures
            final(self)@ == after_tick(old(self)@, sample),
            report is Some <==> report_due(old(self)@),
            report matches Some(r) ==> said(r.co2) == mean_reading(
                Quantity::Co2,
                now_ms,
                final(self)@.co2,
            ) && said(r.voc) == mean_reading(Quantity::Voc, now_ms, final(self)@.voc),
    {
        if let Some(s) = sample {
            self.co2.push(s.co2eq_ppm as u32);
            self.voc.push(s.tvoc_ppb as u32);
        }
        let mut report: Option<GasReport> = None;
        if self.counter >= SAMPLES_PER_REPORT {
            report = Some(
                GasReport {
                    co2: SensorReading::of_mean(Quantity::Co2, now_ms, &self.co2),
                    voc: SensorReading::of_mean(Quantity::Voc, now_ms, &self.voc),
                },
            );
            self.counter = 0;
        }
        self.counter = self.counter + 1;
        report
    }
}

} // verus!
