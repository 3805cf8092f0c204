//! The air pressure worker: one reading every five minutes.

pub use crate::error::Error;
use crate::guard::Access;
use crate::reading::{id_of, Quantity, Reading, SensorReading};
use crate::threads::{BusClient, BusStep};
use vstd::prelude::*;
use vstd::string::*;

verus! {

/// What can go wrong in the pressure sensor's driver.
#[derive(Debug)]
pub enum Bme280Fault {
    /// The compensation of a raw value failed.
    CompensationFailed,
    /// The bus failed; the words are the bus's.
    I2c(String),
    /// The device sent something that is no measurement.
    InvalidData,
    /// The device's calibration could not be read.
    NoCalibrationData,
    /// The chip is none that the driver knows.
    UnsupportedChip,
}

/// The words for `fault`.
pub open spec fn fault_text(fault: Bme280Fault) -> Seq<char> {
    match fault {
        Bme280Fault::CompensationFailed => "Compensation Failed"@,
        Bme280Fault::I2c(detail) => "BME Error: "@ + detail@,
        Bme280Fault::InvalidData => "Invalid Data"@,
        Bme280Fault::NoCalibrationData => "No Calibration Data"@,
        Bme280Fault::UnsupportedChip => "Unsupported Chip"@,
    }
}

/// The failure to open the bus, which the bus describes as `detail`.
pub fn bus_error(detail: &str) -> (e: Error)
    ensures
        e@ == "I2C Error: "@ + detail@,
{
    Error::prefixed("I2C Error: ", detail)
}

/// The failure of the driver with `fault`.
pub fn driver_error(fault: Bme280Fault) -> (e: Error)
    ensures
        e@ == fault_text(fault),
{
    match fault {
        Bme280Fault::CompensationFailed => Error::new(String::from_str("Compensation Failed")),
        Bme280Fault::I2c(detail) => Error::prefixed("BME Error: ", detail.as_str()),
        Bme280Fault::InvalidData => Error::new(String::from_str("Invalid Data")),
        Bme280Fault::NoCalibrationData => Error::new(String::from_str("No Calibration Data")),
        Bme280Fault::UnsupportedChip => Error::new(String::from_str("Unsupported Chip")),
    }
}

/// The time between two readings, in milliseconds.
pub const PERIOD_MS: u64 = 299000;

/// The air pressure worker.
#[derive(Debug)]
pub struct Bmp280 {
    bus: BusClient,
}

impl Bmp280 {
    /// The number by which the guard knows this worker.
    pub closed spec fn number(&self) -> u32 {
        self.bus.number()
    }

    /// Whether the worker has met a broken guard.
    pub closed spec fn halted(&self) -> bool {
        self.bus.halted()
    }

    /// The worker that the guard knows as `worker`.
    pub fn new(worker: u32) -> (w: Bmp280)
        ensures
            w.number() == worker,
            !w.halted(),
    {
        Bmp280 { bus: BusClient::new(worker) }
    }

    /// Whether the worker has met a broken guard.
    pub fn is_halted(&self) -> (b: bool)
        ensures
            b == self.halted(),
    {
        self.bus.is_halted()
    }

    /// The number by which the guard knows this worker.
    pub fn worker(&self) -> (w: u32)
        ensures
            w == self.number(),
    {
        self.bus.worker()
    }

    /// What the worker does now that the guard has answered `access`.
    pub fn on_access(&mut self, access: Access) -> (step: BusStep)
        ensures
            final(self).number() == old(self).number(),
            final(self).halted() == (old(self).halted() || access == Access::Broken),
            step.follows(old(self).halted(), access),
    {
        self.bus.on_access(access)
    }

    /// The reading for a pressure that was measured at `now_ms` and is
    /// spelled `inches_of_mercury`.
    pub fn reading(&self, inches_of_mercury: String, now_ms: u64) -> (r: SensorReading)
        ensures
            r@ == (Reading {
                sensor_id: id_of(Quantity::Pressure),
                timestamp: now_ms,
                value: inches_of_mercury@,
            }),
    {
        SensorReading::new(Quantity::Pressure, now_ms, inches_of_mercury)
    }
}

} // verus!
