//! Instants on the UTC time line.

use vstd::prelude::*;

verus! {

/// An instant, held as whole seconds since 1970-01-01T00:00:00Z and the
/// nanoseconds since that second began. During a leap second the nanoseconds
/// run past 999,999,999, so instants are ordered by seconds first and by
/// nanoseconds second.
#[derive(Debug, Clone, Copy, PartialEq, Eq, PartialOrd, Ord, Hash, Structural)]
pub struct Timestamp {
    pub secs: i64,
    pub nanos: u32,
}

impl Timestamp {
    /// `self` is strictly earlier than `other`.
    pub open spec fn before(self, other: Timestamp) -> bool {
        self.secs < other.secs || (self.secs == other.secs && self.nanos < other.nanos)
    }

    /// `self` is not later than `other`.
    pub open spec fn not_after(self, other: Timestamp) -> bool {
        !other.before(self)
    }

    pub fn new(secs: i64, nanos: u32) -> (t: Timestamp)
        ensures
            t.secs == secs,
            t.nanos == nanos,
    {
        Timestamp { secs, nanos }
    }

    /// Tells whether `self` is strictly earlier than `other`.
    pub fn is_before(&self, other: &Timestamp) -> (r: bool)
        ensures
            r == self.before(*other),
    {
        self.secs < other.secs || (self.secs == other.secs && self.nanos < other.nanos)
    }
}

/// Reads the clock with `chrono::Utc::now` and takes the instant apart with
/// `timestamp` and `timestamp_subsec_nanos`, which keeps the order of the
/// instants. The value depends on the machine's clock, so nothing is claimed
/// of it: callers are verified for every instant that may come back.
/// `Utc::now` panics if the clock is set before 1970.
#[verifier::external_body]
pub(crate) fn now() -> Timestamp {
    let t = chrono::Utc::now();
    Timestamp { secs: t.timestamp(), nanos: t.timestamp_subsec_nanos() }
}

} // verus!
