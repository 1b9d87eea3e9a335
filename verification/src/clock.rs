//! Readings of the system clock.

use vstd::prelude::*;

verus! {

/// A reading of the system clock, in milliseconds since the Unix epoch.
/// Its field is private to this module and only `ClockReading::now` makes
/// one, so a value of this type was read from the clock.
#[derive(Debug, Clone, Copy)]
pub struct ClockReading {
    millis: i64,
}

/// The current time in milliseconds since the Unix epoch
/// (`chrono::Utc::now().timestamp_millis()`). Nothing is claimed of it.
#[verifier::external_body]
fn now_timestamp_millis() -> i64 {
    chrono::Utc::now().timestamp_millis()
}

impl ClockReading {
    /// The milliseconds since the Unix epoch that were read.
    pub closed spec fn value(&self) -> i64 {
        self.millis
    }

    /// Reads the system clock.
    pub fn now() -> (reading: ClockReading) {
        ClockReading { millis: now_timestamp_millis() }
    }

    /// The milliseconds since the Unix epoch that were read.
    pub fn millis(&self) -> (millis: i64)
        ensures
            millis == self.value(),
    {
        self.millis
    }
}

} // verus!
