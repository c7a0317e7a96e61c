//! Spans of time as exact nanosecond counts, points in time as plain numbers,
//! and the two clocks.

use vstd::prelude::*;
use tokio::time::Instant;
use chrono::Utc;

verus! {

/// Nanoseconds in one millisecond.
pub const NANOS_PER_MILLI: u128 = 1_000_000;

/// Nanoseconds in one second.
pub const NANOS_PER_SEC: u128 = 1_000_000_000;

/// `tokio::time::Instant`: a reading of the monotonic clock. Nothing is known
/// of a value of this type; it can only be stored and handed back to the clock.
#[verifier::external_type_specification]
#[verifier::external_body]
pub struct ExInstant(tokio::time::Instant);

/// A span of time, held as a whole number of nanoseconds.
#[derive(Clone, Copy, Debug, PartialEq, Eq, Structural)]
pub struct Duration {
    pub nanos: u128,
}

impl Duration {
    /// The span of `nanos` nanoseconds.
    pub fn from_nanos(nanos: u128) -> (d: Duration)
        ensures
            d.nanos == nanos,
    {
        Duration { nanos }
    }

    /// The span of `millis` milliseconds.
    pub fn from_millis(millis: u64) -> (d: Duration)
        ensures
            d.nanos == millis * NANOS_PER_MILLI,
    {
        let wide: u128 = millis as u128;
        Duration { nanos: wide * NANOS_PER_MILLI }
    }

    /// The span of `secs` seconds.
    pub fn from_secs(secs: u64) -> (d: Duration)
        ensures
            d.nanos == secs * NANOS_PER_SEC,
    {
        let wide: u128 = secs as u128;
        Duration { nanos: wide * NANOS_PER_SEC }
    }

    /// The length in nanoseconds.
    pub fn as_nanos(&self) -> (n: u128)
        ensures
            n == self.nanos,
    {
        self.nanos
    }

    /// The length in whole milliseconds, rounded down.
    pub fn as_millis(&self) -> (n: u128)
        ensures
            n == self.nanos / NANOS_PER_MILLI,
    {
        self.nanos / NANOS_PER_MILLI
    }

    /// The two spans one after the other.
    pub fn plus(&self, other: &Duration) -> (sum: Duration)
        requires
            self.nanos + other.nanos <= u128::MAX,
        ensures
            sum.nanos == self.nanos + other.nanos,
    {
        Duration { nanos: self.nanos + other.nanos }
    }

    /// Whether this span is strictly longer than `other`.
    pub fn exceeds(&self, other: &Duration) -> (b: bool)
        ensures
            b == (self.nanos > other.nanos),
    {
        self.nanos > other.nanos
    }
}

/// A point in calendar time: whole seconds since the start of 1970 (UTC), and
/// the nanoseconds into that second.
#[derive(Clone, Copy, Debug, PartialEq, Eq, Structural)]
pub struct Timestamp {
    pub secs: i64,
    pub subsec_nanos: u32,
}

impl Timestamp {
    /// The point in time as nanoseconds since the start of 1970.
    pub open spec fn total_nanos(self) -> int {
        self.secs * (NANOS_PER_SEC as int) + self.subsec_nanos
    }

    /// The whole seconds from `earlier` to `self`, rounded towards zero;
    /// negative where `earlier` is the later of the two.
    pub open spec fn whole_seconds_since(self, earlier: Timestamp) -> int {
        let gap = self.total_nanos() - earlier.total_nanos();
        if gap >= 0 {
            gap / (NANOS_PER_SEC as int)
        } else {
            -((-gap) / (NANOS_PER_SEC as int))
        }
    }

    /// The whole seconds from `earlier` to `self`, rounded towards zero.
    pub fn seconds_since(&self, earlier: &Timestamp) -> (secs: i128)
        ensures
            secs == self.whole_seconds_since(*earlier),
    {
        let per_sec: i128 = 1_000_000_000;
        let later_secs: i128 = self.secs as i128;
        let later_nanos: i128 = self.subsec_nanos as i128;
        let earlier_secs: i128 = earlier.secs as i128;
        let earlier_nanos: i128 = earlier.subsec_nanos as i128;
        let gap: i128 = (later_secs * per_sec + later_nanos) - (earlier_secs * per_sec
            + earlier_nanos);
        if gap >= 0 {
            gap / per_sec
        } else {
            -((-gap) / per_sec)
        }
    }
}

/// The current calendar time by `chrono::Utc::now`, taken apart with
/// `DateTime::timestamp` and `DateTime::timestamp_subsec_nanos`. The reading
/// depends on when the call is made, so nothing is claimed of it. (`now`
/// gives up on a machine whose clock stands before 1970.)
#[verifier::external_body]
pub(crate) fn utc_now() -> Timestamp {
    let now = Utc::now();
    Timestamp { secs: now.timestamp(), subsec_nanos: now.timestamp_subsec_nanos() }
}

/// The current calendar time in the text form of RFC 3339, by
/// `chrono::Utc::now` and `DateTime::to_rfc3339`. The text depends on when the
/// call is made, so nothing is claimed of it. (`now` gives up on a machine
/// whose clock stands before 1970.)
#[verifier::external_body]
pub(crate) fn rfc3339_now() -> String {
    Utc::now().to_rfc3339()
}

/// Reads the monotonic clock with `tokio::time::Instant::now`. The reading
/// depends on when the call is made, so nothing is claimed of it.
#[verifier::external_body]
pub(crate) fn clock_now() -> Instant {
    Instant::now()
}

/// The time that has passed since `earlier` was read, by
/// `tokio::time::Instant::elapsed`, converted to nanoseconds. The value
/// depends on when the call is made, so nothing is claimed of it.
#[verifier::external_body]
pub(crate) fn clock_elapsed(earlier: &Instant) -> Duration {
    Duration { nanos: earlier.elapsed().as_nanos() }
}

} // verus!
