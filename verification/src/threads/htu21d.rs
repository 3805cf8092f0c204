//! The temperature and humidity worker: one joint reading every minute, which
//! is also what the gas sensor worker corrects by.

use crate::derived::{DerivedState, DerivedStore};
pub use crate::error::Error;
use crate::guard::Access;
use crate::reading::{CompositeReading, LOCATION};
use crate::threads::{BusClient, BusStep};
use vstd::prelude::*;

verus! {

/// The failure to open the bus, which the bus describes as `detail`.
pub fn bus_error(detail: &str) -> (e: Error)
    ensures
        e@ == "I2C Error: "@ + detail@,
{
    Error::prefixed("I2C Error: ", detail)
}

/// The failure of the driver on the bus, which the bus describes as `detail`.
pub fn driver_error(detail: &str) -> (e: Error)
    ensures
        e@ == "HTU21 I2C Error: "@ + detail@,
{
    Error::prefixed("HTU21 I2C Error: ", detail)
}

/// The time between two readings, in milliseconds. It is a little more than
/// a minute, so that the workers do not all ask for the bus at once.
pub const PERIOD_MS: u64 = 60005;

/// What a joint read gives: the reading to emit and the pair to publish, if
/// both the temperature and the humidity were read.
pub open spec fn joint_reading(
    temperature: Option<u32>,
    humidity: Option<u32>,
    now_ms: u64,
) -> Option<CompositeReading> {
    if temperature is Some && humidity is Some {
        Some(
            CompositeReading::TempHumidity {
                timestamp: now_ms,
                location: LOCATION,
                temperature: temperature->0,
                humidity: humidity->0,
            },
        )
    } else {
        None
    }
}

/// The temperature and humidity worker.
#[derive(Debug)]
pub struct Htu21d {
    bus: BusClient,
}

impl Htu21d {
    /// The number by which the guard knows this worker.
    pub closed spec fn number(&self) -> u32 {
        self.bus.number()
    }

    /// Whether the worker has met a broken guard.
    pub closed spec fn halted(&self) -> bool {
        self.bus.halted()
    }

    /// The worker that the guard knows as `worker`.
    pub fn new(worker: u32) -> (w: Htu21d)
        ensures
            w.number() == worker,
            !w.halted(),
    {
        Htu21d { bus: BusClient::new(worker) }
    }

    /// Whether the worker has met a broken guard.
    pub fn is_halted(&self) -> (b: bool)
        ensures
            b == self.halted(),
    {
        self.bus.is_halted()
    }

    /// The number by which the guard knows this worker.
    pub fn worker(&self) -> (w: u32)
        ensures
            w == self.number(),
    {
        self.bus.worker()
    }

    /// What the worker does now that the guard has answered `access`.
    pub fn on_access(&mut self, access: Access) -> (step: BusStep)
        ensures
            final(self).number() == old(self).number(),
            final(self).halted() == (old(self).halted() || access == Access::Broken),
            step.follows(old(self).halted(), access),
    {
        self.bus.on_access(access)
    }

    /// Takes what one critical section read: the temperature and the
    /// humidity, each as a bit pattern, or `None` for a read that failed.
    /// Only a joint read counts: it is published to `store` and returned as
    /// the reading to emit. Otherwise `store` keeps what it had.
    pub fn on_sample(
        &self,
        temperature: Option<u32>,
        humidity: Option<u32>,
        now_ms: u64,
        store: &mut DerivedStore,
    ) -> (reading: Option<CompositeReading>)
        ensures
            reading == joint_reading(temperature, humidity, now_ms),
            final(store)@ == if temperature is Some && humidity is Some {
                DerivedState { temperature: temperature->0, humidity: humidity->0 }
            } else {
                old(store)@
            },
    {
        match (temperature, humidity) {
            (Some(t), Some(h)) => {
                store.publish(t, h);
                Some(
                    CompositeReading::TempHumidity {
                        timestamp: now_ms,
                        location: LOCATION,
                        temperature: t,
                        humidity: h,
                    },
                )
            },
            _ => None,
        }
    }
}

} // verus!
