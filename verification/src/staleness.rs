//! The staleness decay model.
//!
//! Staleness follows the exponential decay `1 - 2^(-age / half_life)`,
//! rendered in exact fixed-point arithmetic. The elapsed time is first
//! normalized to `q = (age * 2^20) / half_life`, a fixed-point multiple of
//! the half-life. The remaining (undecayed) fraction of [`STALE_ONE`] = 2^60
//! is then `2^(60 - k)` at whole multiples `q = k * 2^20`, interpolated
//! linearly in between; past forty half-lives it is 0. Within that range the
//! interpolation steps `2^(39 - k)` are whole numbers, so no rounding occurs
//! and the model is strictly decreasing until it saturates.
//!
//! An atom's effective half-life starts at 14 days, is doubled while the atom
//! is less than 30 days old (onboarding forgiveness), and is multiplied by
//! 1.5 when the atom links to a fresh atom (raw staleness below 0.5); the two
//! boosts compose.
use vstd::prelude::*;
use vstd::arithmetic::div_mod::{
    lemma_div_by_self, lemma_div_denominator, lemma_div_is_ordered,
    lemma_div_is_ordered_by_denominator, lemma_div_pos_is_pos, lemma_fundamental_div_mod,
    lemma_fundamental_div_mod_converse, lemma_mod_bound,
};
use vstd::arithmetic::mul::{
    lemma_mul_inequality, lemma_mul_is_commutative, lemma_mul_nonnegative,
    lemma_mul_strict_inequality,
};
use vstd::arithmetic::power2::{
    lemma2_to64, lemma2_to64_rest, lemma_pow2_adds, lemma_pow2_pos, lemma_pow2_strictly_increases,
    pow2,
};
use vstd::bits::{lemma_u64_pow2_no_overflow, lemma_u64_shl_is_mul};
use crate::fixed::{HALF_LIFE_MS, ONBOARDING_WINDOW_MS, STALE_HALF, STALE_ONE};
use crate::types::Atom;

verus! {

/// One half-life in normalized time: 2^20.
pub const QONE: u64 = 0x100000;

/// Forty half-lives in normalized time; decay saturates here.
pub const SATURATION_Q: u64 = 40 * 0x100000;

/// Elapsed time from `t` to `now`, clamped to zero when `t` is in the future.
pub open spec fn spec_age(now: int, t: int) -> int {
    if now >= t {
        now - t
    } else {
        0
    }
}

/// Normalized age: `(age * 2^20) / half_life`, capped at forty half-lives.
pub open spec fn spec_decay_q(age: int, half_life: int) -> int {
    let raw = (age * (QONE as int)) / half_life;
    if raw >= SATURATION_Q as int {
        SATURATION_Q as int
    } else {
        raw
    }
}

/// Undecayed fraction of [`STALE_ONE`] after normalized age `q`:
/// `2^(60 - k)` at `q = k * 2^20`, interpolated linearly in between,
/// and 0 from forty half-lives on.
pub open spec fn spec_remaining(q: int) -> int {
    let k = q / (QONE as int);
    let r = q % (QONE as int);
    if k >= 40 {
        0
    } else {
        pow2((60 - k) as nat) as int - r * (pow2((39 - k) as nat) as int)
    }
}

/// Staleness after `age` milliseconds under half-life `half_life`.
pub open spec fn spec_staleness_value(age: int, half_life: int) -> int {
    STALE_ONE as int - spec_remaining(spec_decay_q(age, half_life))
}

/// On `0 <= q <= SATURATION_Q`, the remaining fraction lies between the
/// endpoints of its interpolation segment, hence within (0, 2^60] before
/// saturation.
proof fn lemma_remaining_bounds(q: int)
    requires
        0 <= q <= SATURATION_Q as int,
    ensures
        q < SATURATION_Q as int ==> {
            let k = q / (QONE as int);
            pow2((59 - k) as nat) < spec_remaining(q) <= pow2((60 - k) as nat)
        },
        0 <= spec_remaining(q) <= STALE_ONE as int,
{
    lemma2_to64();
    lemma2_to64_rest();
    let k = q / (QONE as int);
    let r = q % (QONE as int);
    lemma_mod_bound(q, QONE as int);
    lemma_div_pos_is_pos(q, QONE as int);
    if q < SATURATION_Q as int {
        // k <= 39 because q <= 40 * 2^20 - 1.
        lemma_div_is_ordered(q, SATURATION_Q as int - 1, QONE as int);
        lemma_fundamental_div_mod_converse(
            SATURATION_Q as int - 1,
            QONE as int,
            39,
            QONE as int - 1,
        );
        assert(k <= 39);
        let p = pow2((39 - k) as nat) as int;
        lemma_pow2_pos((39 - k) as nat);
        // r * p < 2^20 * p == 2^(59 - k)
        lemma_mul_strict_inequality(r, QONE as int, p);
        lemma_mul_is_commutative(QONE as int, p);
        lemma_pow2_adds((39 - k) as nat, 20);
        assert((QONE as int) * p == pow2((59 - k) as nat) as int);
        // 2^(60 - k) == 2 * 2^(59 - k)
        lemma_pow2_adds((59 - k) as nat, 1);
        assert(pow2((60 - k) as nat) == pow2((59 - k) as nat) * 2);
        lemma_mul_nonnegative(r, p);
        assert(pow2((59 - k) as nat) < spec_remaining(q));
        // 2^(60 - k) <= 2^60
        if k > 0 {
            lemma_pow2_strictly_increases((60 - k) as nat, 60);
        }
        assert(pow2(60) == STALE_ONE as int);
    } else {
        lemma_fundamental_div_mod_converse(SATURATION_Q as int, QONE as int, 40, 0);
        assert(spec_remaining(q) == 0);
    }
}

/// The remaining fraction never increases with normalized age, and strictly
/// decreases until saturation.
proof fn lemma_remaining_antitone(q1: int, q2: int)
    requires
        0 <= q1 <= q2,
    ensures
        spec_remaining(q2) <= spec_remaining(q1),
        q1 < q2 <= SATURATION_Q as int ==> spec_remaining(q2) < spec_remaining(q1),
{
    let k1 = q1 / (QONE as int);
    let r1 = q1 % (QONE as int);
    let k2 = q2 / (QONE as int);
    let r2 = q2 % (QONE as int);
    lemma_mod_bound(q1, QONE as int);
    lemma_mod_bound(q2, QONE as int);
    lemma_div_pos_is_pos(q1, QONE as int);
    lemma_div_is_ordered(q1, q2, QONE as int);
    lemma_fundamental_div_mod(q1, QONE as int);
    lemma_fundamental_div_mod(q2, QONE as int);
    if k2 >= 40 {
        if k1 >= 40 {
            assert(spec_remaining(q1) == 0 && spec_remaining(q2) == 0);
            // Strict case cannot arise: q2 <= SATURATION_Q and k2 >= 40 force
            // q2 == SATURATION_Q, and then q1 < q2 forces k1 <= 39.
            if q1 < q2 <= SATURATION_Q as int {
                lemma_mul_inequality(40, k1, QONE as int);
                lemma_mul_is_commutative(k1, QONE as int);
                lemma_mul_is_commutative(40, QONE as int);
                assert(q1 >= 40 * (QONE as int));
                assert(false);
            }
        } else {
            if q1 <= SATURATION_Q as int {
                lemma_remaining_bounds(q1);
                lemma_pow2_pos((59 - k1) as nat);
            } else {
                assert(false);  // q1 <= q2 and k1 <= 39 puts q1 below SATURATION_Q
            }
        }
    } else {
        // k1 <= k2 <= 39.
        if k1 == k2 {
            let p = pow2((39 - k1) as nat) as int;
            lemma_pow2_pos((39 - k1) as nat);
            assert(r1 <= r2);
            lemma_mul_inequality(r1, r2, p);
            if q1 < q2 {
                assert(r1 < r2);
                lemma_mul_strict_inequality(r1, r2, p);
            }
        } else {
            // Separate segments: the whole of segment k2 lies strictly below
            // the whole of segment k1.
            assert(q1 <= SATURATION_Q as int) by {
                lemma_mul_inequality(k1, 39, QONE as int);
                lemma_mul_is_commutative(k1, QONE as int);
                lemma_mul_is_commutative(39, QONE as int);
            };
            assert(q1 < SATURATION_Q as int) by {
                if q1 == SATURATION_Q as int {
                    lemma_fundamental_div_mod_converse(SATURATION_Q as int, QONE as int, 40, 0);
                }
            };
            lemma_remaining_bounds(q1);
            lemma_remaining_bounds(q2);
            if 60 - k2 < 59 - k1 {
                lemma_pow2_strictly_increases((60 - k2) as nat, (59 - k1) as nat);
            }
            assert(pow2((60 - k2) as nat) <= pow2((59 - k1) as nat));
        }
    }
}

/// Staleness lies in `[0, STALE_ONE]`.
pub proof fn lemma_staleness_value_in_range(age: int, half_life: int)
    requires
        age >= 0,
        half_life >= 1,
    ensures
        0 <= spec_staleness_value(age, half_life) <= STALE_ONE as int,
{
    lemma_decay_q_in_range(age, half_life);
    lemma_remaining_bounds(spec_decay_q(age, half_life));
}

proof fn lemma_decay_q_in_range(age: int, half_life: int)
    requires
        age >= 0,
        half_life >= 1,
    ensures
        0 <= spec_decay_q(age, half_life) <= SATURATION_Q as int,
{
    lemma_mul_nonnegative(age, QONE as int);
    lemma_div_pos_is_pos(age * (QONE as int), half_life);
}

/// Staleness never decreases as the elapsed time grows, the half-life held
/// fixed.
pub proof fn lemma_staleness_monotone_in_age(age1: int, age2: int, half_life: int)
    requires
        0 <= age1 <= age2,
        half_life >= 1,
    ensures
        spec_staleness_value(age1, half_life) <= spec_staleness_value(age2, half_life),
{
    lemma_mul_inequality(age1, age2, QONE as int);
    lemma_div_is_ordered(age1 * (QONE as int), age2 * (QONE as int), half_life);
    lemma_decay_q_in_range(age1, half_life);
    lemma_decay_q_in_range(age2, half_life);
    lemma_remaining_antitone(spec_decay_q(age1, half_life), spec_decay_q(age2, half_life));
}

/// A longer half-life never yields a larger staleness, the age held fixed.
pub proof fn lemma_staleness_antitone_in_half_life(age: int, hl1: int, hl2: int)
    requires
        age >= 0,
        1 <= hl1 <= hl2,
    ensures
        spec_staleness_value(age, hl2) <= spec_staleness_value(age, hl1),
{
    lemma_mul_nonnegative(age, QONE as int);
    lemma_div_is_ordered_by_denominator(age * (QONE as int), hl1, hl2);
    lemma_decay_q_in_range(age, hl1);
    lemma_decay_q_in_range(age, hl2);
    lemma_remaining_antitone(spec_decay_q(age, hl2), spec_decay_q(age, hl1));
}

/// Doubling the half-life strictly lowers staleness, provided the age is
/// large enough to register in the model (at least `half_life / 2^20`
/// milliseconds) and small enough that the faster decay has not saturated
/// (below eighty half-lives).
pub proof fn lemma_double_half_life_strictly_slower(age: int, half_life: int)
    requires
        half_life >= 1,
        age * (QONE as int) >= half_life,
        age < 80 * half_life,
    ensures
        spec_staleness_value(age, 2 * half_life) < spec_staleness_value(age, half_life),
{
    let n = age * (QONE as int);
    let raw1 = n / half_life;
    let raw2 = n / (2 * half_life);
    lemma_mul_nonnegative(age, QONE as int);
    // raw1 >= 1
    lemma_div_is_ordered(half_life, n, half_life);
    lemma_div_by_self(half_life);
    assert(raw1 >= 1);
    // raw2 == raw1 / 2 < raw1
    lemma_div_denominator(n, half_life, 2);
    assert(raw2 == raw1 / 2);
    assert(raw2 < raw1);
    // raw2 < SATURATION_Q: otherwise n >= 80 * half_life * 2^20.
    lemma_div_pos_is_pos(n, 2 * half_life);
    if raw2 >= SATURATION_Q as int {
        lemma_fundamental_div_mod(n, 2 * half_life);
        lemma_mod_bound(n, 2 * half_life);
        lemma_mul_inequality(SATURATION_Q as int, raw2, 2 * half_life);
        lemma_mul_is_commutative(raw2, 2 * half_life);
        lemma_mul_is_commutative(SATURATION_Q as int, 2 * half_life);
        assert(n >= (2 * half_life) * (SATURATION_Q as int));
        lemma_mul_strict_inequality(age, 80 * half_life, QONE as int);
        lemma_mul_is_commutative(80 * half_life, QONE as int);
        assert((2 * half_life) * (SATURATION_Q as int) == (80 * half_life) * (QONE as int))
            by (nonlinear_arith);
        assert(false);
    }
    let q1 = spec_decay_q(age, half_life);
    let q2 = spec_decay_q(age, 2 * half_life);
    assert(q2 == raw2);
    assert(q2 < q1 <= SATURATION_Q as int);
    lemma_remaining_antitone(q2, q1);
}

/// Normalized age, capped at forty half-lives.
pub fn decay_q(age_ms: u64, half_life_ms: u64) -> (q: u64)
    requires
        half_life_ms >= 1,
    ensures
        q == spec_decay_q(age_ms as int, half_life_ms as int),
        q <= SATURATION_Q,
{
    let raw: u128 = ((age_ms as u128) * (QONE as u128)) / (half_life_ms as u128);
    if raw >= SATURATION_Q as u128 {
        SATURATION_Q
    } else {
        raw as u64
    }
}

/// Undecayed fraction of [`STALE_ONE`] at normalized age `q`.
pub fn remaining_of_q(q: u64) -> (r: u64)
    requires
        q <= SATURATION_Q,
    ensures
        r == spec_remaining(q as int),
        r <= STALE_ONE,
{
    let k: u64 = q / QONE;
    let rem: u64 = q % QONE;
    proof {
        lemma_remaining_bounds(q as int);
    }
    if k >= 40 {
        0
    } else {
        proof {
            lemma_u64_pow2_no_overflow((60 - k) as nat);
            lemma_u64_pow2_no_overflow((39 - k) as nat);
            lemma_u64_shl_is_mul(1u64, (60 - k) as u64);
            lemma_u64_shl_is_mul(1u64, (39 - k) as u64);
            lemma_pow2_pos((39 - k) as nat);
            lemma_mul_inequality(rem as int, QONE as int, pow2((39 - k) as nat) as int);
        }
        let hi: u64 = 1u64 << (60 - k);
        let lo: u64 = 1u64 << (39 - k);
        hi - rem * lo
    }
}

/// Staleness after `age_ms` milliseconds under half-life `half_life_ms`.
pub fn staleness_value(age_ms: u64, half_life_ms: u64) -> (s: u64)
    requires
        half_life_ms >= 1,
    ensures
        s == spec_staleness_value(age_ms as int, half_life_ms as int),
        s <= STALE_ONE,
{
    let q = decay_q(age_ms, half_life_ms);
    let r = remaining_of_q(q);
    STALE_ONE - r
}

/// Elapsed milliseconds from `t` to `now`, clamped to zero.
pub fn age_of(now_ms: u64, t: u64) -> (age: u64)
    ensures
        age == spec_age(now_ms as int, t as int),
{
    if now_ms >= t {
        now_ms - t
    } else {
        0
    }
}

/// Raw staleness of a linked atom: its own decay under the base half-life,
/// ignoring the atom's own boosts.
pub open spec fn spec_raw_staleness(now: int, updated_at: int) -> int {
    spec_staleness_value(spec_age(now, updated_at), HALF_LIFE_MS as int)
}

/// Raw staleness of a linked atom.
pub fn raw_staleness(now_ms: u64, updated_at: u64) -> (s: u64)
    ensures
        s == spec_raw_staleness(now_ms as int, updated_at as int),
        s <= STALE_ONE,
{
    staleness_value(age_of(now_ms, updated_at), HALF_LIFE_MS)
}

/// Whether some link of `a` names an atom whose raw staleness is below 0.5.
pub open spec fn spec_has_fresh_link(a: Atom, atoms: Seq<Atom>, now: int) -> bool {
    exists|j: int, i: int|
        0 <= j < a.links@.len() && 0 <= i < atoms.len() && atoms[i].id@ == a.links@[j]@
            && spec_raw_staleness(now, atoms[i].updated_at as int) < STALE_HALF as int
}

/// Whether `a` was created less than 30 days before `now`.
pub open spec fn spec_is_onboarding(a: Atom, now: int) -> bool {
    spec_age(now, a.created_at as int) < ONBOARDING_WINDOW_MS as int
}

/// Effective half-life of `a`: 14 days, doubled during onboarding,
/// multiplied by 1.5 on a fresh link; the boosts compose.
pub open spec fn spec_effective_half_life(a: Atom, atoms: Seq<Atom>, now: int) -> int {
    let base: int = if spec_is_onboarding(a, now) {
        2 * HALF_LIFE_MS as int
    } else {
        HALF_LIFE_MS as int
    };
    if spec_has_fresh_link(a, atoms, now) {
        base + base / 2
    } else {
        base
    }
}

/// Staleness of `a` within the collection `atoms` at time `now`: zero when
/// pinned, else exponential decay of the time since the last edit under the
/// effective half-life.
pub open spec fn spec_staleness(a: Atom, atoms: Seq<Atom>, now: int) -> int {
    if a.pinned_staleness {
        0
    } else {
        spec_staleness_value(
            spec_age(now, a.updated_at as int),
            spec_effective_half_life(a, atoms, now),
        )
    }
}

/// Whether some link of `a` names a fresh atom, by flat one-level lookup.
pub fn has_fresh_link(a: &Atom, atoms: &Vec<Atom>, now_ms: u64) -> (b: bool)
    ensures
        b == spec_has_fresh_link(*a, atoms@, now_ms as int),
{
    let links_len = a.links.len();
    for j in 0..links_len
        invariant
            links_len == a.links@.len(),
            forall|j2: int, i2: int|
                0 <= j2 < j && 0 <= i2 < atoms@.len() ==> !(atoms@[i2].id@ == a.links@[j2]@
                    && spec_raw_staleness(now_ms as int, atoms@[i2].updated_at as int)
                    < STALE_HALF as int),
    {
        let atoms_len = atoms.len();
        for i in 0..atoms_len
            invariant
                links_len == a.links@.len(),
                atoms_len == atoms@.len(),
                j < a.links@.len(),
                forall|j2: int, i2: int|
                    0 <= j2 < j && 0 <= i2 < atoms@.len() ==> !(atoms@[i2].id@ == a.links@[j2]@
                        && spec_raw_staleness(now_ms as int, atoms@[i2].updated_at as int)
                        < STALE_HALF as int),
                forall|i2: int|
                    0 <= i2 < i ==> !(atoms@[i2].id@ == a.links@[j as int]@
                        && spec_raw_staleness(now_ms as int, atoms@[i2].updated_at as int)
                        < STALE_HALF as int),
        {
            if atoms[i].id == a.links[j] {
                let s = raw_staleness(now_ms, atoms[i].updated_at);
                if s < STALE_HALF {
                    return true;
                }
            }
        }
    }
    false
}

/// The effective half-life of `a`, in milliseconds.
pub fn effective_half_life(a: &Atom, atoms: &Vec<Atom>, now_ms: u64) -> (hl: u64)
    ensures
        hl == spec_effective_half_life(*a, atoms@, now_ms as int),
        hl >= 1,
{
    let base: u64 = if age_of(now_ms, a.created_at) < ONBOARDING_WINDOW_MS {
        2 * HALF_LIFE_MS
    } else {
        HALF_LIFE_MS
    };
    if has_fresh_link(a, atoms, now_ms) {
        base + base / 2
    } else {
        base
    }
}

/// Staleness of `a` within `atoms` at `now_ms`.
pub fn staleness_of(a: &Atom, atoms: &Vec<Atom>, now_ms: u64) -> (s: u64)
    ensures
        s == spec_staleness(*a, atoms@, now_ms as int),
        s <= STALE_ONE,
{
    if a.pinned_staleness {
        0
    } else {
        let hl = effective_half_life(a, atoms, now_ms);
        staleness_value(age_of(now_ms, a.updated_at), hl)
    }
}

} // verus!
