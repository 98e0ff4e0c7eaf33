//! Global packets-per-second rate limiter.
//!
//! One shared limiter for all workers: a fixed inter-packet interval
//! approximates the requested rate.

use vstd::prelude::*;

verus! {

/// The interval between acquisitions for a rate: one second divided by the
/// rate, in whole microseconds; zero when the rate is zero (unlimited).
pub open spec fn interval_for(pps: u32) -> u64 {
    if pps == 0 { 0 } else { (1_000_000int / (pps as int)) as u64 }
}

/// Global PPS-based rate limiter.
pub struct GlobalRateLimiter {
    /// Target packets per second (0 = unlimited).
    pps: u32,
    /// Pre-computed sleep between acquisitions, in microseconds.
    interval_micros: u64,
}

impl GlobalRateLimiter {
    /// The configured rate.
    pub closed spec fn rate(&self) -> u32 {
        self.pps
    }

    /// The interval between acquisitions, in microseconds.
    pub closed spec fn interval(&self) -> u64 {
        self.interval_micros
    }

    /// Create a rate limiter targeting `pps` packets per second.
    /// If `pps` is 0, acquisition is always instant.
    pub fn new(pps: u32) -> (l: Self)
        ensures
            l.rate() == pps,
            l.interval() == interval_for(pps),
    {
        let interval_micros: u64 = if pps == 0 { 0 } else { 1_000_000 / (pps as u64) };
        GlobalRateLimiter { pps, interval_micros }
    }

    /// Unlimited rate limiter (always instant).
    pub fn unlimited() -> (l: Self)
        ensures
            l.rate() == 0,
            l.interval() == 0,
    {
        Self::new(0)
    }

    /// Target PPS configured for this limiter.
    pub fn pps(&self) -> (p: u32)
        ensures
            p == self.rate(),
    {
        self.pps
    }

    /// Whether this limiter enforces any limit.
    pub fn is_limited(&self) -> (b: bool)
        ensures
            b == (self.rate() > 0),
    {
        self.pps > 0
    }

    /// The pause to take before each acquisition, in microseconds
    /// (zero: no pause).
    pub fn interval_micros(&self) -> (m: u64)
        ensures
            m == self.interval(),
    {
        self.interval_micros
    }

    /// Whether an acquisition waits at all.
    pub fn must_wait(&self) -> (b: bool)
        ensures
            b == (self.interval() != 0),
    {
        self.interval_micros != 0
    }
}

/// A limiter is limited exactly when its interval is non-zero, except for
/// rates above one million per second, whose interval rounds down to zero.
pub proof fn law_limited_iff_waits(pps: u32)
    requires
        pps <= 1_000_000,
    ensures
        (pps > 0) <==> (interval_for(pps) != 0),
{
    if pps > 0 {
        assert(1_000_000int / (pps as int) >= 1) by (nonlinear_arith)
            requires 0 < pps <= 1_000_000;
    }
}

} // verus!
