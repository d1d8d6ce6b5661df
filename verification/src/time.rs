//! Absolute instants and the arithmetic that token expiry needs.

use vstd::prelude::*;

verus! {

/// An instant in absolute time: whole seconds since the Unix epoch, and the
/// nanoseconds that have passed within that second.
#[derive(Clone, Copy, Debug, PartialEq, Eq, Structural)]
pub struct Timestamp {
    pub secs: i64,
    pub nanos: u32,
}

impl Timestamp {
    /// `self` lies strictly later than `other`: seconds decide, nanoseconds
    /// break a tie.
    pub open spec fn later_than(self, other: Timestamp) -> bool {
        self.secs > other.secs || (self.secs == other.secs && self.nanos > other.nanos)
    }

    /// The instant `seconds` whole seconds after `self`.
    pub open spec fn spec_plus_seconds(self, seconds: u64) -> Timestamp
        recommends
            self.secs + seconds <= i64::MAX,
    {
        Timestamp { secs: (self.secs + seconds) as i64, nanos: self.nanos }
    }

    pub fn new(secs: i64, nanos: u32) -> (r: Timestamp)
        ensures
            r == (Timestamp { secs, nanos }),
    {
        Timestamp { secs, nanos }
    }

    /// Whether `self` lies strictly later than `other`.
    pub fn is_after(&self, other: &Timestamp) -> (r: bool)
        ensures
            r == self.later_than(*other),
    {
        self.secs > other.secs || (self.secs == other.secs && self.nanos > other.nanos)
    }

    /// Whether adding `seconds` to `self` stays within the range of instants.
    pub fn can_add_seconds(&self, seconds: u64) -> (r: bool)
        ensures
            r == (self.secs + seconds <= i64::MAX),
    {
        if seconds <= 0x7fff_ffff_ffff_ffffu64 {
            let s: i64 = seconds as i64;
            self.secs <= i64::MAX - s
        } else {
            let over: i64 = (seconds - 0x8000_0000_0000_0000u64) as i64;
            self.secs < 0 && self.secs + 1 + i64::MAX <= i64::MAX - over
        }
    }

    /// The instant `seconds` whole seconds after `self`.
    pub fn plus_seconds(&self, seconds: u64) -> (r: Timestamp)
        requires
            self.secs + seconds <= i64::MAX,
        ensures
            r == self.spec_plus_seconds(seconds),
    {
        if seconds <= 0x7fff_ffff_ffff_ffffu64 {
            let s: i64 = seconds as i64;
            Timestamp { secs: self.secs + s, nanos: self.nanos }
        } else {
            let over: i64 = (seconds - 0x8000_0000_0000_0000u64) as i64;
            Timestamp { secs: self.secs + 1 + i64::MAX + over, nanos: self.nanos }
        }
    }
}

/// One past the last second that `chrono` can hold as a day count: an
/// instant read from the clock lies before it.
pub const CLOCK_LIMIT: i64 = 185_480_451_504_000;

/// An instant that the clock can show: at or after the epoch, before the
/// clock's limit, with less than a second of nanoseconds.
pub open spec fn clock_instant(t: Timestamp) -> bool {
    0 <= t.secs < CLOCK_LIMIT && t.nanos < 1_000_000_000
}

/// Reads the system clock through `chrono::Utc::now`, which counts from the
/// epoch and holds the instant as a day count and a time of day. Of the
/// instant that comes back only its range is claimed. The call fails on a
/// machine whose clock stands before the epoch.
#[verifier::external_body]
pub(crate) fn current_time() -> (r: Timestamp)
    ensures
        clock_instant(r),
{
    let t = chrono::Utc::now();
    Timestamp { secs: t.timestamp(), nanos: t.timestamp_subsec_nanos() }
}

} // verus!
