//! The baseline of the gas sensor: two calibration numbers that outlive the
//! process in two small text files, each holding one number in decimal.

use crate::text::{
    decimal_text, format_decimal, is_numeral, lemma_decimal_round_trip, lemma_parsed_iff_numeral,
    parse_trimmed, parsed_unsigned, trimmed, ParseFault,
};
use vstd::prelude::*;

verus! {

/// The calibration numbers of the gas sensor.
#[derive(Clone, Copy, Debug, PartialEq, Eq, Structural)]
pub struct Baseline {
    /// The reference for the carbon dioxide equivalent.
    pub co2eq: u16,
    /// The reference for the volatile organic compounds.
    pub tvoc: u16,
}

/// What the two files hold at startup.
#[derive(Clone, Copy, Debug, PartialEq, Eq, Structural)]
pub enum Restored {
    /// Both files hold a number: the sensor starts with this baseline.
    Calibrated(Baseline),
    /// A file holds something else than a number that fits: no baseline.
    Malformed(ParseFault),
    /// A file is missing: no baseline.
    Missing,
}

/// The number that the text of one file stands for: the text without the
/// whitespace around it, read as a decimal numeral of at most 65535.
pub open spec fn reference_of(file: Seq<char>) -> Result<nat, ParseFault> {
    parsed_unsigned(trimmed(file), 0xFFFF)
}

/// The baseline that the texts of the two files stand for. Where both are
/// malformed, the fault is that of the first.
pub open spec fn baseline_of(co2: Seq<char>, tvoc: Seq<char>) -> Result<Baseline, ParseFault> {
    match reference_of(co2) {
        Err(e) => Err(e),
        Ok(c) => match reference_of(tvoc) {
            Err(e) => Err(e),
            Ok(t) => Ok(Baseline { co2eq: c as u16, tvoc: t as u16 }),
        },
    }
}

/// What the sensor starts with, given the text of each file, if the file is there.
pub open spec fn restored_of(co2: Option<Seq<char>>, tvoc: Option<Seq<char>>) -> Restored {
    if co2 is Some && tvoc is Some {
        match baseline_of(co2->0, tvoc->0) {
            Ok(b) => Restored::Calibrated(b),
            Err(e) => Restored::Malformed(e),
        }
    } else {
        Restored::Missing
    }
}

/// The text written to the file of one reference number.
pub open spec fn reference_text(reference: u16) -> Seq<char> {
    decimal_text(reference as nat)
}

/// Persistence: a baseline that was written to the two files is the baseline
/// that is read back from them.
pub proof fn lemma_baseline_round_trip(b: Baseline)
    ensures
        baseline_of(reference_text(b.co2eq), reference_text(b.tvoc)) == Ok::<Baseline, ParseFault>(
            b,
        ),
        restored_of(Some(reference_text(b.co2eq)), Some(reference_text(b.tvoc)))
            == Restored::Calibrated(b),
{
    lemma_decimal_round_trip(b.co2eq as nat, 0xFFFF);
    lemma_decimal_round_trip(b.tvoc as nat, 0xFFFF);
}

/// A start is calibrated exactly if both files are there and each holds,
/// between whitespace, a number of at most 65535. Every other start is
/// uncalibrated: a missing file, a file without a number.
pub proof fn lemma_uncalibrated_start(co2: Option<Seq<char>>, tvoc: Option<Seq<char>>)
    ensures
        restored_of(co2, tvoc) is Calibrated <==> co2 is Some && tvoc is Some && is_numeral(
            trimmed(co2->0),
            0xFFFF,
        ) && is_numeral(trimmed(tvoc->0), 0xFFFF),
{
    if co2 is Some && tvoc is Some {
        lemma_parsed_iff_numeral(trimmed(co2->0), 0xFFFF);
        lemma_parsed_iff_numeral(trimmed(tvoc->0), 0xFFFF);
    }
}

impl Baseline {
    /// The baseline that the texts of the two files stand for.
    pub fn parse(co2: &str, tvoc: &str) -> (r: Result<Baseline, ParseFault>)
        ensures
            r == baseline_of(co2@, tvoc@),
    {
        match parse_trimmed(co2, 0xFFFF) {
            Err(e) => Err(e),
            Ok(c) => match parse_trimmed(tvoc, 0xFFFF) {
                Err(e) => Err(e),
                Ok(t) => Ok(Baseline { co2eq: c as u16, tvoc: t as u16 }),
            },
        }
    }

    /// What the sensor starts with, given the text of each file, if the file
    /// is there.
    pub fn restore(co2: Option<&str>, tvoc: Option<&str>) -> (r: Restored)
        ensures
            r == restored_of(
                match co2 {
                    Some(s) => Some(s@),
                    None => None,
                },
                match tvoc {
                    Some(s) => Some(s@),
                    None => None,
                },
            ),
    {
        match (co2, tvoc) {
            (Some(c), Some(t)) => match Baseline::parse(c, t) {
                Ok(b) => Restored::Calibrated(b),
                Err(e) => Restored::Malformed(e),
            },
            _ => Restored::Missing,
        }
    }

    /// The text to write to the file of the carbon dioxide reference.
    pub fn co2_text(&self) -> (s: String)
        ensures
            s@ == reference_text(self.co2eq),
    {
        format_decimal(self.co2eq as u64)
    }

    /// The text to write to the file of the volatile organic compounds reference.
    pub fn tvoc_text(&self) -> (s: String)
        ensures
            s@ == reference_text(self.tvoc),
    {
        format_decimal(self.tvoc as u64)
    }
}

} // verus!
