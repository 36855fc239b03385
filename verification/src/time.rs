//! Points in time (UTC), as seconds and nanoseconds since the Unix epoch.

use vstd::prelude::*;

verus! {

/// A point in time, UTC: seconds since the Unix epoch and the nanoseconds
/// within that second.
#[derive(Clone, Copy, Debug, PartialEq, Eq, Hash)]
pub struct Timestamp {
    pub secs: i64,
    pub nanos: u32,
}

impl Timestamp {
    /// A point in time from its seconds and nanoseconds.
    pub fn new(secs: i64, nanos: u32) -> (r: Timestamp)
        ensures
            r == (Timestamp { secs, nanos }),
    {
        Timestamp { secs, nanos }
    }

    /// Whether `self` comes before `other`.
    pub open spec fn spec_before(self, other: Timestamp) -> bool {
        self.secs < other.secs || (self.secs == other.secs && self.nanos < other.nanos)
    }

    /// Whether `self` comes before `other`.
    pub fn before(&self, other: &Timestamp) -> (r: bool)
        ensures
            r == self.spec_before(*other),
    {
        self.secs < other.secs || (self.secs == other.secs && self.nanos < other.nanos)
    }

    /// Whether two points in time are the same.
    pub fn same(&self, other: &Timestamp) -> (r: bool)
        ensures
            r == (*self == *other),
    {
        self.secs == other.secs && self.nanos == other.nanos
    }

    /// Milliseconds since the Unix epoch.
    pub open spec fn spec_millis(self) -> int {
        self.secs * 1000 + self.nanos / 1_000_000
    }

    /// Milliseconds since the Unix epoch (where that fits in an `i64`).
    pub fn timestamp_millis(&self) -> (r: i64)
        requires
            i64::MIN <= self.spec_millis() <= i64::MAX,
        ensures
            r == self.spec_millis(),
    {
        let ms = (self.secs as i128) * 1000 + (self.nanos / 1_000_000) as i128;
        ms as i64
    }
}

} // verus!
