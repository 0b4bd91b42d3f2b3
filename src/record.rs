//! The record that a worker produces for each checked URL.
use vstd::prelude::*;
use crate::retry::CheckOutcome;

verus! {

/// Largest number of seconds since the Unix epoch that a timestamp may hold
/// (a date in the year 5138).
pub const MAX_TIMESTAMP_SECS: i64 = 100_000_000_000;

/// A UTC instant: whole seconds since 1970-01-01T00:00:00Z and the
/// nanoseconds past that second.
#[derive(Clone, Copy, PartialEq, Eq, Structural)]
pub struct Timestamp {
    pub secs: i64,
    pub nanos: u32,
}

impl Timestamp {
    pub open spec fn wf(self) -> bool {
        &&& 0 <= self.secs <= MAX_TIMESTAMP_SECS
        &&& self.nanos < 1_000_000_000
    }

    /// The instant `secs` seconds and `nanos` nanoseconds after the epoch,
    /// where both are in range.
    pub fn new(secs: i64, nanos: u32) -> (r: Option<Timestamp>)
        ensures
            r is Some <==> (Timestamp { secs, nanos }).wf(),
            r is Some ==> r->0 == (Timestamp { secs, nanos }),
    {
        if 0 <= secs && secs <= MAX_TIMESTAMP_SECS && nanos < 1_000_000_000 {
            Some(Timestamp { secs, nanos })
        } else {
            None
        }
    }
}

/// The result of checking one URL.
pub struct CheckResult {
    pub url: String,
    pub outcome: CheckOutcome,
    /// Time from the first attempt's start to the outcome, in milliseconds.
    pub elapsed_ms: u64,
    /// When the check completed.
    pub timestamp: Timestamp,
}

impl CheckResult {
    pub open spec fn wf(&self) -> bool {
        self.timestamp.wf()
    }
}

} // verus!
