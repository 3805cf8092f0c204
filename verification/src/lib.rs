//! The decision logic of an indoor sensor station.
//!
//! The station samples a fixed set of sensors, each on its own cadence, and
//! forwards what they read to a message broker. This crate holds what the
//! station decides and computes, as functions of plain values with contracts
//! that Verus proves; the program around it sleeps, talks to the devices and
//! to the broker, and puts readings into words.
//!
//! - [`guard`]: the guard of the shared bus, with mutual exclusion and the
//!   finality of a failure proved over every sequence of events.
//! - [`derived`]: the state that one worker publishes for another.
//! - [`channel`] and [`publisher`]: the queue of outbound messages and its
//!   consumer, with bounded retries and the fault sentinel.
//! - [`window`]: the window of recent samples and its mean.
//! - [`baseline`]: the calibration numbers that outlive the process.
//! - [`text`]: trimming, fields and decimal numerals.
//! - [`reading`], [`payload`], [`error`]: the values that travel.
//! - [`threads`]: the workers, one for each sensor.

pub mod baseline;
pub mod channel;
pub mod derived;
pub mod error;
pub mod guard;
pub mod payload;
pub mod publisher;
pub mod reading;
pub mod text;
pub mod threads;
pub mod window;

pub use payload::Payload;
