//! Per-observation quality-control verdicts.

use vstd::prelude::*;

verus! {

/// Flag indicating the result of a QC test for a single data point.
#[derive(Debug, Clone, Copy, PartialEq, Eq, Structural)]
pub enum Flag {
    /// The data point passed the QC test with no issues.
    Pass,
    /// The data point failed the QC test.
    Fail,
    /// The data point did not fail, but was inside a warning threshold.
    Warn,
    /// The QC test was inconclusive.
    Inconclusive,
    /// The input was invalid, so the data point could not be QCed.
    Invalid,
    /// Some data needed for the test was missing.
    DataMissing,
    /// The data point did not have enough neighbours in the given radius.
    Isolated,
}

impl Flag {
    /// The stable integer encoding of each flag, part of the wire contract.
    pub open spec fn spec_code(self) -> u8 {
        match self {
            Flag::Pass => 0,
            Flag::Fail => 1,
            Flag::Warn => 2,
            Flag::Inconclusive => 3,
            Flag::Invalid => 4,
            Flag::DataMissing => 5,
            Flag::Isolated => 6,
        }
    }

    /// Encodes the flag as its stable integer code.
    pub fn to_code(self) -> (r: u8)
        ensures
            r == self.spec_code(),
    {
        match self {
            Flag::Pass => 0,
            Flag::Fail => 1,
            Flag::Warn => 2,
            Flag::Inconclusive => 3,
            Flag::Invalid => 4,
            Flag::DataMissing => 5,
            Flag::Isolated => 6,
        }
    }

    /// Decodes a stable integer code back into a flag; codes outside the
    /// known set decode to nothing.
    pub fn from_code(code: u8) -> (r: Option<Flag>)
        ensures
            match r {
                Some(f) => f.spec_code() == code,
                None => code > 6,
            },
    {
        match code {
            0 => Some(Flag::Pass),
            1 => Some(Flag::Fail),
            2 => Some(Flag::Warn),
            3 => Some(Flag::Inconclusive),
            4 => Some(Flag::Invalid),
            5 => Some(Flag::DataMissing),
            6 => Some(Flag::Isolated),
            _ => None,
        }
    }
}

} // verus!
