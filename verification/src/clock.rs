//! Points in time, as the library keeps them. The library reads no clock:
//! whoever calls it says what time it is.

use vstd::prelude::*;

verus! {

/// A point in time: whole seconds since 1970-01-01 00:00:00 UTC and the
/// nanoseconds past that second.
#[derive(Debug, Clone, Copy, PartialEq, Eq, Structural)]
pub struct Timestamp {
    pub secs: i64,
    pub nanos: u32,
}

impl Timestamp {
    /// The point in time as nanoseconds since the epoch.
    pub open spec fn total_nanos(self) -> int {
        self.secs * 1_000_000_000 + self.nanos
    }

    /// Whether more than `seconds` seconds lie between `earlier` and this
    /// point in time.
    pub open spec fn later_by_more_than(self, earlier: Timestamp, seconds: int) -> bool {
        self.total_nanos() - earlier.total_nanos() > seconds * 1_000_000_000
    }

    /// Whether more than `seconds` seconds lie between `earlier` and this
    /// point in time.
    pub fn is_later_by_more_than(&self, earlier: &Timestamp, seconds: i64) -> (later: bool)
        ensures
            later == self.later_by_more_than(*earlier, seconds as int),
    {
        let elapsed: i128 = (self.secs as i128 - earlier.secs as i128) * 1_000_000_000
            + (self.nanos as i128 - earlier.nanos as i128);
        let limit: i128 = seconds as i128 * 1_000_000_000;
        elapsed > limit
    }
}

} // verus!
