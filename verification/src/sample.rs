//! The measured duration of one successful request.

use vstd::prelude::*;

verus! {

/// Nanoseconds in one millisecond.
pub const NANOS_PER_MILLI: u128 = 1_000_000;

/// A round-trip duration, held as whole nanoseconds.
#[derive(Clone, Copy, Debug, PartialEq, Eq)]
pub struct Sample {
    pub nanos: u128,
}

impl Sample {
    /// The whole milliseconds of this duration; what lies below a millisecond is cut off.
    pub open spec fn millis(self) -> u128 {
        (self.nanos / NANOS_PER_MILLI) as u128
    }

    /// A sample of `nanos` nanoseconds.
    pub fn from_nanos(nanos: u128) -> (sample: Sample)
        ensures
            sample.nanos == nanos,
    {
        Sample { nanos }
    }

    /// A sample of `millis` milliseconds.
    pub fn from_millis(millis: u64) -> (sample: Sample)
        ensures
            sample.nanos == millis * NANOS_PER_MILLI,
            sample.millis() == millis,
    {
        Sample { nanos: millis as u128 * NANOS_PER_MILLI }
    }

    /// Whole milliseconds, rounded down.
    pub fn as_millis(&self) -> (millis: u128)
        ensures
            millis == self.millis(),
    {
        self.nanos / NANOS_PER_MILLI
    }
}

} // verus!
