//! The lightning detector. It is watched, not measured: each event becomes a
//! line for the log and nothing goes to the broker.

pub use crate::error::Error;
use crate::text::{decimal_text, push_decimal};
use vstd::prelude::*;
use vstd::string::*;

verus! {

/// How far the head of the storm is.
#[derive(Clone, Copy, Debug, PartialEq, Eq, Structural)]
pub enum StormDistance {
    /// This many kilometres.
    Kilometers(u8),
    /// Too far to tell.
    OutOfRange,
    /// Right above.
    Overhead,
}

/// What the detector noticed.
#[derive(Clone, Copy, Debug, PartialEq, Eq, Structural)]
pub enum LightningEvent {
    /// Something man-made that looks like lightning.
    Disturbance,
    /// Lightning.
    Lightning(StormDistance),
    /// Too much noise to listen.
    Noise,
}

/// The line for the log that tells of `event`.
pub open spec fn description(event: LightningEvent) -> Seq<char> {
    match event {
        LightningEvent::Lightning(StormDistance::Kilometers(km)) => "Lightning detected: "@
            + decimal_text(km as nat) + " km."@,
        LightningEvent::Lightning(StormDistance::OutOfRange) => "Lightning detected: out of range."@,
        LightningEvent::Lightning(StormDistance::Overhead) => "Lightning detected: overhead."@,
        LightningEvent::Noise => "Noise detected."@,
        LightningEvent::Disturbance => "Disturber detected."@,
    }
}

/// The largest signal verification threshold that the detector takes.
pub const MAX_VERIFICATION_THRESHOLD: u8 = 10;

/// Asks the detector's driver whether it takes `value` as a signal
/// verification threshold. The call is `as3935::SignalVerificationThreshold::new`,
/// which is trusted to accept the values up to ten and to refuse all others.
#[verifier::external_body]
fn driver_takes_threshold(value: u8) -> (taken: bool)
    ensures
        taken == (value <= MAX_VERIFICATION_THRESHOLD),
{
    as3935::SignalVerificationThreshold::new(value).is_ok()
}

/// The lightning detector worker.
#[derive(Debug)]
pub struct As3935 {
    indoor: bool,
    verification_threshold: u8,
}

impl As3935 {
    /// Whether the detector is tuned for a place indoors.
    pub closed spec fn placed_indoor(&self) -> bool {
        self.indoor
    }

    /// How strictly the detector tells lightning from disturbers.
    pub closed spec fn threshold(&self) -> u8 {
        self.verification_threshold
    }

    /// The worker of a detector that stands indoors and verifies signals at
    /// threshold 2.
    pub fn new() -> (r: Result<As3935, Error>)
        ensures
            r matches Ok(w) && w.placed_indoor() && w.threshold() == 2,
    {
        match As3935::with_threshold(true, 2) {
            Some(w) => Ok(w),
            None => Err(Error::new(String::from_str("Signal verification threshold refused"))),
        }
    }

    /// The worker of a detector that verifies signals at `threshold`, if the
    /// detector takes that threshold.
    pub fn with_threshold(indoor: bool, threshold: u8) -> (r: Option<As3935>)
        ensures
            r is Some <==> threshold <= MAX_VERIFICATION_THRESHOLD,
            r matches Some(w) ==> w.placed_indoor() == indoor && w.threshold() == threshold,
    {
        if driver_takes_threshold(threshold) {
            Some(As3935 { indoor, verification_threshold: threshold })
        } else {
            None
        }
    }

    /// Whether the detector is tuned for a place indoors.
    pub fn is_indoor(&self) -> (b: bool)
        ensures
            b == self.placed_indoor(),
    {
        self.indoor
    }

    /// How strictly the detector tells lightning from disturbers.
    pub fn verification_threshold(&self) -> (t: u8)
        ensures
            t == self.threshold(),
    {
        self.verification_threshold
    }

    /// The line for the log that tells of `event`.
    pub fn describe(&self, event: LightningEvent) -> (line: String)
        ensures
            line@ == description(event),
    {
        match event {
            LightningEvent::Lightning(StormDistance::Kilometers(km)) => {
                let mut line = String::from_str("Lightning detected: ");
                push_decimal(&mut line, km as u64);
                line.append(" km.");
                line
            },
            LightningEvent::Lightning(StormDistance::OutOfRange) => String::from_str(
                "Lightning detected: out of range.",
            ),
            LightningEvent::Lightning(StormDistance::Overhead) => String::from_str(
                "Lightning detected: overhead.",
            ),
            LightningEvent::Noise => String::from_str("Noise detected."),
            LightningEvent::Disturbance => String::from_str("Disturber detected."),
        }
    }
}

} // verus!
