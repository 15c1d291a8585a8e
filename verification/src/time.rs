//! Instants on the UTC time line and the clock that reads them.

use vstd::prelude::*;

verus! {

/// An instant on the UTC time line: the whole seconds since
/// 1970-01-01T00:00:00Z and the nanoseconds into that second.
///
/// Instants are ordered by `secs` first and by `nanos` second. A leap second is
/// written with `nanos` of one thousand million or more, and still sorts
/// between its neighbours under this order.
#[derive(Clone, Copy, Debug, PartialEq, Eq, Structural)]
pub struct Timestamp {
    pub secs: i64,
    pub nanos: u32,
}

impl Timestamp {
    /// `self` is not later than `other`.
    pub open spec fn at_or_before(self, other: Timestamp) -> bool {
        self.secs < other.secs || (self.secs == other.secs && self.nanos <= other.nanos)
    }

    /// The later of the two instants; `other` where they are equal.
    pub open spec fn later_of(self, other: Timestamp) -> Timestamp {
        if self.at_or_before(other) {
            other
        } else {
            self
        }
    }

    pub fn new(secs: i64, nanos: u32) -> (r: Timestamp)
        ensures
            r.secs == secs,
            r.nanos == nanos,
    {
        Timestamp { secs, nanos }
    }

    pub fn is_at_or_before(&self, other: &Timestamp) -> (r: bool)
        ensures
            r == self.at_or_before(*other),
    {
        self.secs < other.secs || (self.secs == other.secs && self.nanos <= other.nanos)
    }

    pub fn latest(self, other: Timestamp) -> (r: Timestamp)
        ensures
            r == self.later_of(other),
            self.at_or_before(r),
            other.at_or_before(r),
    {
        if self.is_at_or_before(&other) {
            other
        } else {
            self
        }
    }
}

/// The order on instants is reflexive, transitive and total, and two instants
/// that are each at or before the other are the same instant.
pub proof fn lemma_timestamp_order(a: Timestamp, b: Timestamp, c: Timestamp)
    ensures
        a.at_or_before(a),
        a.at_or_before(b) && b.at_or_before(c) ==> a.at_or_before(c),
        a.at_or_before(b) || b.at_or_before(a),
        a.at_or_before(b) && b.at_or_before(a) ==> a == b,
{
}

/// The process-wide wall clock.
pub struct ClockService {}

impl ClockService {
    /// The current instant, read with `chrono::Utc::now`. Nothing is claimed
    /// about which instant comes back, only its shape: chrono builds it from
    /// the time elapsed since the Unix epoch, so the seconds are not negative
    /// and the nanoseconds stay below one thousand million. Two readings need
    /// not be in order, since the system clock can be set back. `Utc::now`
    /// itself gives up on a machine whose clock stands before 1970.
    #[verifier::external_body]
    pub fn now() -> (r: Timestamp)
        ensures
            r.secs >= 0,
            r.nanos < 1_000_000_000,
    {
        let t = chrono::Utc::now();
        Timestamp { secs: t.timestamp(), nanos: t.timestamp_subsec_nanos() }
    }
}

} // verus!
