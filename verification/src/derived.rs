//! The derived-state store: the temperature and relative humidity that the
//! temperature and humidity worker read last, kept for the gas sensor worker,
//! which corrects its sensor by them.
//!
//! Both numbers are kept as the bit patterns of IEEE 754 single-precision
//! values. Until a pair has been published both are not-a-number, and a pair
//! with a not-a-number in it is never to be computed with.

use vstd::prelude::*;

verus! {

/// Whether `bits` is the pattern of a not-a-number: with the sign bit left
/// out, the exponent bits are all set and the fraction is not zero.
pub open spec fn is_nan_bits(bits: u32) -> bool {
    bits % 0x8000_0000 > 0x7F80_0000
}

/// The pattern that stands for a number that was never published.
pub const UNKNOWN_BITS: u32 = 0x7FC0_0000;

/// A temperature and a relative humidity, each as a bit pattern.
#[derive(Clone, Copy, Debug, PartialEq, Eq, Structural)]
pub struct DerivedState {
    /// Degrees Celsius.
    pub temperature: u32,
    /// Per cent of saturation.
    pub humidity: u32,
}

impl DerivedState {
    /// Whether both numbers of the pair are numbers.
    pub open spec fn known(self) -> bool {
        !is_nan_bits(self.temperature) && !is_nan_bits(self.humidity)
    }

    /// The pair that stands for "never published".
    pub fn unknown() -> (s: DerivedState)
        ensures
            s == (DerivedState { temperature: UNKNOWN_BITS, humidity: UNKNOWN_BITS }),
            !s.known(),
    {
        DerivedState { temperature: UNKNOWN_BITS, humidity: UNKNOWN_BITS }
    }

    /// Whether both numbers of the pair are numbers.
    pub fn is_known(&self) -> (b: bool)
        ensures
            b == self.known(),
    {
        !bits_are_nan(self.temperature) && !bits_are_nan(self.humidity)
    }

    /// What the humidity correction is computed from: the pair, if it is
    /// known, and nothing otherwise, so that the correction is skipped.
    pub fn compensation_input(&self) -> (input: Option<(u32, u32)>)
        ensures
            input == if self.known() {
                Some((self.temperature, self.humidity))
            } else {
                None::<(u32, u32)>
            },
    {
        if self.is_known() {
            Some((self.temperature, self.humidity))
        } else {
            None
        }
    }
}

/// Whether `bits` is the pattern of a not-a-number.
pub fn bits_are_nan(bits: u32) -> (b: bool)
    ensures
        b == is_nan_bits(bits),
{
    bits % 0x8000_0000 > 0x7F80_0000
}

/// The store. It holds the pair that was published last.
#[derive(Debug)]
pub struct DerivedStore {
    state: DerivedState,
}

impl View for DerivedStore {
    type V = DerivedState;

    closed spec fn view(&self) -> DerivedState {
        self.state
    }
}

impl DerivedStore {
    /// A store into which nothing has been published.
    pub fn new() -> (s: DerivedStore)
        ensures
            s@ == (DerivedState { temperature: UNKNOWN_BITS, humidity: UNKNOWN_BITS }),
            !s@.known(),
    {
        DerivedStore { state: DerivedState::unknown() }
    }

    /// Replaces the pair held by `(temperature, humidity)`.
    pub fn publish(&mut self, temperature: u32, humidity: u32)
        ensures
            final(self)@ == (DerivedState { temperature, humidity }),
    {
        self.state = DerivedState { temperature, humidity };
    }

    /// The pair that was published last.
    pub fn read(&self) -> (s: DerivedState)
        ensures
            s == self@,
    {
        self.state
    }
}

} // verus!
