//! Points in time and the distance between them.

use std::time::SystemTime;
use std::time::UNIX_EPOCH;
use vstd::prelude::*;

verus! {

/// Nanoseconds in one millisecond.
pub const NANOS_PER_MILLI: u128 = 1_000_000;

/// A point in time: the nanoseconds that have passed since the Unix epoch.
#[derive(Clone, Copy, Debug, PartialEq, Eq, Structural)]
pub struct Timestamp {
    pub nanos: u128,
}

impl Timestamp {
    /// The Unix epoch.
    pub open spec fn spec_epoch() -> Timestamp {
        Timestamp { nanos: 0 }
    }

    /// The Unix epoch.
    #[verifier::when_used_as_spec(spec_epoch)]
    pub fn epoch() -> (t: Timestamp)
        ensures
            t == Timestamp::spec_epoch(),
    {
        Timestamp { nanos: 0 }
    }

    /// The point in time `millis` milliseconds after the epoch.
    pub fn from_millis(millis: u64) -> (t: Timestamp)
        ensures
            t.nanos == millis * NANOS_PER_MILLI,
    {
        Timestamp { nanos: (millis as u128) * NANOS_PER_MILLI }
    }

    /// Whole milliseconds from `earlier` to `self`; meaningful when `earlier`
    /// is not after `self`.
    pub open spec fn spec_millis_since(self, earlier: Timestamp) -> int {
        (self.nanos - earlier.nanos) / (NANOS_PER_MILLI as int)
    }

    /// Whole milliseconds from `earlier` to `self`, or `None` when `earlier`
    /// lies after `self`.
    pub fn millis_since(self, earlier: Timestamp) -> (elapsed: Option<u128>)
        ensures
            earlier.nanos <= self.nanos ==> elapsed == Some(
                self.spec_millis_since(earlier) as u128,
            ),
            earlier.nanos > self.nanos ==> elapsed.is_none(),
    {
        if earlier.nanos <= self.nanos {
            Some((self.nanos - earlier.nanos) / NANOS_PER_MILLI)
        } else {
            None
        }
    }
}

/// Reads the wall clock with `std::time::SystemTime::now` and expresses it as
/// the time passed since `UNIX_EPOCH`. Nothing is claimed of the reading; a
/// clock set before the epoch gives `None`.
#[verifier::external_body]
pub(crate) fn wall_clock() -> (now: Option<Timestamp>) {
    match SystemTime::now().duration_since(UNIX_EPOCH) {
        Ok(elapsed) => Some(Timestamp { nanos: elapsed.as_nanos() }),
        Err(_) => None,
    }
}

} // verus!
