//! The current time, read from the machine's clock.

use vstd::prelude::*;

verus! {

/// Calls `chrono::Utc::now` and reads it as milliseconds since the Unix
/// epoch. The time is the machine's: nothing is claimed of it.
#[verifier::external_body]
pub(crate) fn utc_now_millis() -> i64 {
    chrono::Utc::now().timestamp_millis()
}

/// A reading of the machine's clock, in milliseconds since the Unix epoch
/// (UTC). Only [`read_clock`] makes one, so a value of this type is a time
/// that the clock gave.
#[derive(Clone, Copy, Debug)]
pub struct ClockReading {
    millis: i64,
}

impl View for ClockReading {
    type V = i64;

    /// The time read, in milliseconds since the Unix epoch.
    closed spec fn view(&self) -> i64 {
        self.millis
    }
}

impl ClockReading {
    /// The time read, in milliseconds since the Unix epoch.
    pub fn millis(&self) -> (r: i64)
        ensures
            r == self@,
    {
        self.millis
    }
}

/// Reads the machine's clock.
pub fn read_clock() -> ClockReading {
    ClockReading { millis: utc_now_millis() }
}

} // verus!
