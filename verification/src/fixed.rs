//! Fixed-point constants and integer square root.
//!
//! Fractions in [0, 1] are held in two scales:
//! - staleness and opacity as numerators over [`STALE_ONE`] = 2^60;
//! - priority and entropy scores as parts per million, over [`PPM`].
use vstd::prelude::*;

verus! {

/// Milliseconds in one day.
pub const MS_PER_DAY: u64 = 86400000;

/// 14 days in milliseconds: the base half-life for staleness decay.
pub const HALF_LIFE_MS: u64 = 14 * 86400000;

/// 30 days in milliseconds: the onboarding forgiveness window.
pub const ONBOARDING_WINDOW_MS: u64 = 30 * 86400000;

/// 7 days in milliseconds: minimum age for the zero-link entropy count.
pub const ORPHAN_MIN_AGE_MS: u64 = 7 * 86400000;

/// 14 days in milliseconds: minimum age for orphan compression candidates.
pub const COMPRESSION_MIN_AGE_MS: u64 = 14 * 86400000;

/// 30 days in milliseconds: the deadline-urgency and recency horizon.
pub const THIRTY_DAYS_MS: u64 = 30 * 86400000;

/// Denominator of staleness and opacity fractions: 2^60.
pub const STALE_ONE: u64 = 0x1000000000000000;

/// Staleness threshold 0.5 (exact): linked atoms below it are fresh.
pub const STALE_HALF: u64 = 0x1000000000000000 / 2;

/// Staleness threshold 0.3 (rounded down): linked tasks below it count
/// as urgent dependencies.
pub const STALE_THRESHOLD_03: u64 = (3 * 0x1000000000000000) / 10;

/// Staleness threshold 0.7 (rounded down): atoms above it count as stale
/// for the entropy score.
pub const STALE_THRESHOLD_07: u64 = (7 * 0x1000000000000000) / 10;

/// Staleness threshold 0.8 (exact): atoms above it are stale compression
/// candidates.
pub const STALE_THRESHOLD_08: u64 = (4 * 0x1000000000000000) / 5;

/// Opacity floor 0.6 (rounded down), over [`STALE_ONE`].
pub const OPACITY_MIN: u64 = (3 * 0x1000000000000000) / 5;

/// Denominator of priority and entropy scores: one million.
pub const PPM: u64 = 1000000;

/// The non-negative integer square root, rounded down.
pub open spec fn spec_isqrt(n: int) -> int
    decreases n,
{
    if n <= 0 {
        0
    } else if (spec_isqrt(n - 1) + 1) * (spec_isqrt(n - 1) + 1) <= n {
        spec_isqrt(n - 1) + 1
    } else {
        spec_isqrt(n - 1)
    }
}

/// `spec_isqrt(n)` is the unique `r >= 0` with `r * r <= n < (r + 1) * (r + 1)`.
pub proof fn lemma_isqrt_bounds(n: int)
    requires
        n >= 0,
    ensures
        spec_isqrt(n) >= 0,
        spec_isqrt(n) * spec_isqrt(n) <= n,
        n < (spec_isqrt(n) + 1) * (spec_isqrt(n) + 1),
    decreases n,
{
    if n == 0 {
    } else {
        lemma_isqrt_bounds(n - 1);
        let p = spec_isqrt(n - 1);
        if (p + 1) * (p + 1) <= n {
            // n - 1 < (p + 1)^2 and (p + 1)^2 <= n force n == (p + 1)^2.
            assert(n == (p + 1) * (p + 1));
            assert((p + 2) * (p + 2) == (p + 1) * (p + 1) + 2 * p + 3) by (nonlinear_arith);
        } else {
        }
    }
}

/// Any `r` with `r * r <= n < (r + 1) * (r + 1)` equals `spec_isqrt(n)`.
pub proof fn lemma_isqrt_unique(n: int, r: int)
    requires
        n >= 0,
        r >= 0,
        r * r <= n,
        n < (r + 1) * (r + 1),
    ensures
        r == spec_isqrt(n),
{
    lemma_isqrt_bounds(n);
    let s = spec_isqrt(n);
    if r < s {
        assert((r + 1) * (r + 1) <= s * s) by (nonlinear_arith)
            requires
                0 <= r && r + 1 <= s,
        ;
    }
    if s < r {
        assert((s + 1) * (s + 1) <= r * r) by (nonlinear_arith)
            requires
                0 <= s && s + 1 <= r,
        ;
    }
}

/// Integer square root by binary search.
pub fn isqrt64(n: u64) -> (r: u64)
    ensures
        r == spec_isqrt(n as int),
        r * r <= n,
{
    let mut lo: u64 = 0;
    let mut hi: u64 = 0x100000000;
    proof {
        assert((0x100000000 as int) * (0x100000000 as int) == 0x10000000000000000);
    }
    while lo + 1 < hi
        invariant
            lo < hi <= 0x100000000,
            (lo as int) * (lo as int) <= n as int,
            (n as int) < (hi as int) * (hi as int),
        decreases hi - lo,
    {
        let mid: u64 = lo + (hi - lo) / 2;
        proof {
            assert((mid as int) * (mid as int) <= (0x100000000 as int) * (0x100000000 as int))
                by (nonlinear_arith)
                requires
                    0 <= mid <= 0x100000000,
            ;
        }
        if (mid as u128) * (mid as u128) <= n as u128 {
            lo = mid;
        } else {
            hi = mid;
        }
    }
    proof {
        lemma_isqrt_unique(n as int, lo as int);
    }
    lo
}

} // verus!
