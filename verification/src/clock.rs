//! Points in time, and the wall clock.

use vstd::prelude::*;

verus! {

/// A point in UTC time: whole seconds since the Unix epoch and the
/// nanoseconds within that second.
#[derive(Debug, Clone, Copy, PartialEq, Eq, Hash, Structural)]
pub struct Timestamp {
    /// Seconds since 1970-01-01T00:00:00Z (negative before it).
    pub secs: i64,
    /// Nanoseconds within the second, below 1_000_000_000.
    pub nanos: u32,
}

/// Nanoseconds since the epoch.
pub open spec fn nanos_since_epoch(t: Timestamp) -> int {
    t.secs * 1_000_000_000 + t.nanos
}

/// Whole days from `earlier` to `later`, rounded toward zero: the seconds
/// between them rounded toward zero, then divided by 86 400 rounding
/// toward zero (negative when `later` lies before `earlier`).
pub open spec fn whole_days_between(later: Timestamp, earlier: Timestamp) -> int {
    let d = nanos_since_epoch(later) - nanos_since_epoch(earlier);
    let secs = if d >= 0 { d / 1_000_000_000 } else { -((-d) / 1_000_000_000) };
    if secs >= 0 { secs / 86_400 } else { -((-secs) / 86_400) }
}

impl Timestamp {
    /// Well-formed: the nanosecond part is below one second.
    pub open spec fn valid(self) -> bool {
        self.nanos < 1_000_000_000
    }

    /// `self` lies strictly after `other`.
    pub open spec fn after(self, other: Timestamp) -> bool {
        self.secs > other.secs || (self.secs == other.secs && self.nanos > other.nanos)
    }

    /// Whether `self` lies strictly after `other`.
    pub fn is_after(&self, other: &Timestamp) -> (b: bool)
        ensures
            b == self.after(*other),
    {
        self.secs > other.secs || (self.secs == other.secs && self.nanos > other.nanos)
    }

    /// Whole days from `earlier` to `self` (chrono's `(self - earlier).num_days()`).
    pub fn days_since(&self, earlier: &Timestamp) -> (d: i64)
        requires
            self.valid(),
            earlier.valid(),
        ensures
            d == whole_days_between(*self, *earlier),
            -1_000_000_000_000_000 <= d <= 1_000_000_000_000_000,
    {
        let a: i128 = (self.secs as i128) * 1_000_000_000 + (self.nanos as i128);
        let b: i128 = (earlier.secs as i128) * 1_000_000_000 + (earlier.nanos as i128);
        proof {
            assert(-9_223_372_036_854_775_808_000_000_000 <= a <= 9_223_372_036_854_775_807_999_999_999) by (nonlinear_arith)
                requires a == self.secs * 1_000_000_000 + self.nanos, -9_223_372_036_854_775_808 <= self.secs <= 9_223_372_036_854_775_807, 0 <= self.nanos < 1_000_000_000;
            assert(-9_223_372_036_854_775_808_000_000_000 <= b <= 9_223_372_036_854_775_807_999_999_999) by (nonlinear_arith)
                requires b == earlier.secs * 1_000_000_000 + earlier.nanos, -9_223_372_036_854_775_808 <= earlier.secs <= 9_223_372_036_854_775_807, 0 <= earlier.nanos < 1_000_000_000;
        }
        let diff: i128 = a - b;
        let secs: i128 = if diff >= 0 { diff / 1_000_000_000 } else { -((-diff) / 1_000_000_000) };
        let days: i128 = if secs >= 0 { secs / 86_400 } else { -((-secs) / 86_400) };
        proof {
            assert(-1_000_000_000_000_000 <= days <= 1_000_000_000_000_000) by (nonlinear_arith)
                requires
                    -18_446_744_073_709_551_616_000_000_000 <= diff <= 18_446_744_073_709_551_616_000_000_000,
                    diff >= 0 ==> secs == diff / 1_000_000_000,
                    diff < 0 ==> secs == -((-diff) / 1_000_000_000),
                    secs >= 0 ==> days == secs / 86_400,
                    secs < 0 ==> days == -((-secs) / 86_400),
            ;
        }
        days as i64
    }
}

/// The current UTC time (`chrono::Utc::now`). Of the result only what holds
/// of every outcome is stated: chrono builds it from the system clock's
/// seconds and sub-second nanoseconds, so the nanosecond part is below one
/// second.
#[verifier::external_body]
pub(crate) fn now() -> (t: Timestamp)
    ensures
        t.valid(),
{
    let dt = chrono::Utc::now();
    Timestamp { secs: dt.timestamp(), nanos: dt.timestamp_subsec_nanos() }
}

} // verus!
