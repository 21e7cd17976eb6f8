//! The priority model for task and event atoms.
//!
//! A pinned tier bypasses the formula: the tier string is parsed
//! case-insensitively and mapped to a fixed score. Otherwise the score is a
//! weighted sum of five factors — deadline urgency (0.40), importance (0.25),
//! recency (0.15), dependency urgency (0.15) and an energy boost (0.05) —
//! clamped to [0, 1]. Scores are parts per million of 1.0.
use vstd::prelude::*;
use vstd::arithmetic::div_mod::{lemma_div_is_ordered, lemma_div_multiples_vanish};
use vstd::arithmetic::mul::lemma_mul_inequality;
use crate::energy::{energy_of, spec_energy};
use crate::fixed::{isqrt64, lemma_isqrt_bounds, spec_isqrt, PPM, STALE_THRESHOLD_03,
    THIRTY_DAYS_MS};
use crate::staleness::{age_of, spec_age, spec_staleness};
use crate::text::{chars_eq, chars_of, lower_chars, spec_lower};
use crate::types::{Atom, EnergyLevel, PriorityTier};

verus! {

/// Parse a pinned-tier override, case-insensitively; unrecognized strings
/// fall back to Someday.
pub open spec fn spec_parse_tier(s: Seq<char>) -> PriorityTier {
    if spec_lower(s) == "critical"@ {
        PriorityTier::Critical
    } else if spec_lower(s) == "high"@ {
        PriorityTier::High
    } else if spec_lower(s) == "medium"@ {
        PriorityTier::Medium
    } else if spec_lower(s) == "low"@ {
        PriorityTier::Low
    } else {
        PriorityTier::Someday
    }
}

/// The fixed score of a pinned tier, in parts per million.
pub open spec fn spec_tier_score(t: PriorityTier) -> int {
    match t {
        PriorityTier::Critical => 900000,
        PriorityTier::High => 700000,
        PriorityTier::Medium => 500000,
        PriorityTier::Low => 300000,
        PriorityTier::Someday => 100000,
    }
}

/// The display tier of a computed score: >= 0.80 Critical, >= 0.60 High,
/// >= 0.40 Medium, >= 0.20 Low, else Someday; lower edges inclusive.
pub open spec fn spec_score_to_tier(score: int) -> PriorityTier {
    if score >= 800000 {
        PriorityTier::Critical
    } else if score >= 600000 {
        PriorityTier::High
    } else if score >= 400000 {
        PriorityTier::Medium
    } else if score >= 200000 {
        PriorityTier::Low
    } else {
        PriorityTier::Someday
    }
}

/// Deadline urgency: 0 without a due date; exactly 1.0 when due now or
/// overdue; 0 beyond thirty days; else `1 - sqrt(remaining / 30 days)`.
pub open spec fn spec_deadline_urgency(due: Option<u64>, now: int) -> int {
    match due {
        Some(d) => {
            if d <= now {
                PPM as int
            } else if d - now > THIRTY_DAYS_MS as int {
                0
            } else {
                PPM as int - spec_isqrt(
                    ((d - now) * (PPM as int) * (PPM as int)) / (THIRTY_DAYS_MS as int),
                )
            }
        },
        None => 0,
    }
}

/// Importance: the explicit value clamped to [0, 1], defaulting to 0.5.
pub open spec fn spec_importance(imp: Option<u64>) -> int {
    match imp {
        Some(v) => if v > PPM {
            PPM as int
        } else {
            v as int
        },
        None => 500000,
    }
}

/// Recency: `1 - age / 30 days`, floored at zero.
pub open spec fn spec_recency(updated_at: int, now: int) -> int {
    let age = spec_age(now, updated_at);
    if age >= THIRTY_DAYS_MS as int {
        0
    } else {
        PPM as int - (age * PPM as int) / (THIRTY_DAYS_MS as int)
    }
}

/// Whether some link of `a` names a task atom whose staleness is below 0.3
/// (a proxy for a recently-active, urgent dependency).
pub open spec fn spec_has_urgent_dependency(a: Atom, atoms: Seq<Atom>, now: int) -> bool {
    exists|j: int, i: int|
        0 <= j < a.links@.len() && 0 <= i < atoms.len() && atoms[i].id@ == a.links@[j]@
            && atoms[i].kind@ == "task"@ && spec_staleness(atoms[i], atoms, now)
            < STALE_THRESHOLD_03 as int
}

/// The weighted sum with the energy term folded in, before the final
/// division; weights are in parts per million, so `w` is in ppm squared.
pub open spec fn spec_energy_adjusted(w: int, e: EnergyLevel) -> int {
    match e {
        EnergyLevel::Quick => w + 5000000000,
        EnergyLevel::Medium => w,
        EnergyLevel::Deep => if w >= 2500000000 {
            w - 2500000000
        } else {
            0
        },
    }
}

/// The five-factor formula: `0.40*du + 0.25*imp + 0.15*rec + 0.15*dep +
/// 0.05*energy_boost`, clamped to [0, 1].
pub open spec fn spec_formula_score(du: int, imp: int, rec: int, dep: bool, e: EnergyLevel) -> int {
    let w = 400000 * du + 250000 * imp + 150000 * rec + if dep {
        150000 * 700000
    } else {
        0
    };
    let sc = spec_energy_adjusted(w, e) / (PPM as int);
    if sc > PPM as int {
        PPM as int
    } else {
        sc
    }
}

/// The priority score of `a`: the pinned tier's fixed score when pinned,
/// else the five-factor formula.
pub open spec fn spec_priority_score(a: Atom, atoms: Seq<Atom>, now: int) -> int {
    match a.pinned_tier {
        Some(t) => spec_tier_score(spec_parse_tier(t@)),
        None => spec_formula_score(
            spec_deadline_urgency(a.due_date, now),
            spec_importance(a.importance),
            spec_recency(a.updated_at as int, now),
            spec_has_urgent_dependency(a, atoms, now),
            spec_energy(a),
        ),
    }
}

/// The priority tier of `a`: the parsed pinned tier when pinned, else the
/// display tier of the computed score.
pub open spec fn spec_priority_tier(a: Atom, atoms: Seq<Atom>, now: int) -> PriorityTier {
    match a.pinned_tier {
        Some(t) => spec_parse_tier(t@),
        None => spec_score_to_tier(spec_priority_score(a, atoms, now)),
    }
}

/// Parse a pinned-tier override.
pub fn parse_tier(s: &String) -> (t: PriorityTier)
    ensures
        t == spec_parse_tier(s@),
{
    let l = lower_chars(s.as_str());
    let critical = chars_of("critical");
    let high = chars_of("high");
    let medium = chars_of("medium");
    let low = chars_of("low");
    if chars_eq(&l, &critical) {
        PriorityTier::Critical
    } else if chars_eq(&l, &high) {
        PriorityTier::High
    } else if chars_eq(&l, &medium) {
        PriorityTier::Medium
    } else if chars_eq(&l, &low) {
        PriorityTier::Low
    } else {
        PriorityTier::Someday
    }
}

/// The fixed score of a pinned tier.
pub fn tier_to_score(t: PriorityTier) -> (s: u64)
    ensures
        s == spec_tier_score(t),
{
    match t {
        PriorityTier::Critical => 900000,
        PriorityTier::High => 700000,
        PriorityTier::Medium => 500000,
        PriorityTier::Low => 300000,
        PriorityTier::Someday => 100000,
    }
}

/// The display tier of a computed score.
pub fn score_to_tier(score: u64) -> (t: PriorityTier)
    ensures
        t == spec_score_to_tier(score as int),
{
    if score >= 800000 {
        PriorityTier::Critical
    } else if score >= 600000 {
        PriorityTier::High
    } else if score >= 400000 {
        PriorityTier::Medium
    } else if score >= 200000 {
        PriorityTier::Low
    } else {
        PriorityTier::Someday
    }
}

/// Deadline urgency of a due date at `now_ms`.
pub fn deadline_urgency(due: Option<u64>, now_ms: u64) -> (u: u64)
    ensures
        u == spec_deadline_urgency(due, now_ms as int),
        u <= PPM,
{
    match due {
        Some(d) => {
            if d <= now_ms {
                PPM
            } else {
                let rem = d - now_ms;
                if rem > THIRTY_DAYS_MS {
                    0
                } else {
                    let x128: u128 = (rem as u128) * (PPM as u128) * (PPM as u128) / (
                    THIRTY_DAYS_MS as u128);
                    proof {
                        lemma_mul_inequality(rem as int, THIRTY_DAYS_MS as int, PPM as int);
                        lemma_mul_inequality(
                            rem as int * PPM as int,
                            THIRTY_DAYS_MS as int * PPM as int,
                            PPM as int,
                        );
                        lemma_div_is_ordered(
                            rem as int * PPM as int * PPM as int,
                            THIRTY_DAYS_MS as int * PPM as int * PPM as int,
                            THIRTY_DAYS_MS as int,
                        );
                        assert((THIRTY_DAYS_MS as int * PPM as int * PPM as int) / (
                        THIRTY_DAYS_MS as int) == PPM as int * PPM as int) by {
                            lemma_div_multiples_vanish(
                                PPM as int * PPM as int,
                                THIRTY_DAYS_MS as int,
                            );
                            assert(THIRTY_DAYS_MS as int * PPM as int * PPM as int
                                == THIRTY_DAYS_MS as int * (PPM as int * PPM as int))
                                by (nonlinear_arith);
                        };
                    }
                    let x = x128 as u64;
                    let r = isqrt64(x);
                    proof {
                        lemma_isqrt_bounds(x as int);
                        assert(r <= PPM) by (nonlinear_arith)
                            requires
                                r as int * r as int <= x as int,
                                x as int <= PPM as int * PPM as int,
                                r >= 0,
                        ;
                    }
                    PPM - r
                }
            }
        },
        None => 0,
    }
}

/// Importance of an optional explicit value.
pub fn importance_of(imp: Option<u64>) -> (v: u64)
    ensures
        v == spec_importance(imp),
        v <= PPM,
{
    match imp {
        Some(v) => if v > PPM {
            PPM
        } else {
            v
        },
        None => 500000,
    }
}

/// Recency of the last edit at `now_ms`.
pub fn recency(updated_at: u64, now_ms: u64) -> (v: u64)
    ensures
        v == spec_recency(updated_at as int, now_ms as int),
        v <= PPM,
{
    let age = age_of(now_ms, updated_at);
    if age >= THIRTY_DAYS_MS {
        0
    } else {
        proof {
            lemma_mul_inequality(age as int, THIRTY_DAYS_MS as int, PPM as int);
            lemma_div_is_ordered(
                age as int * PPM as int,
                THIRTY_DAYS_MS as int * PPM as int,
                THIRTY_DAYS_MS as int,
            );
            lemma_div_multiples_vanish(PPM as int, THIRTY_DAYS_MS as int);
        }
        PPM - (age * PPM) / THIRTY_DAYS_MS
    }
}

/// Whether some link of `a` names an urgent task dependency, judged by the
/// precomputed staleness values in `stal`.
pub fn has_urgent_dependency(a: &Atom, atoms: &Vec<Atom>, stal: &Vec<u64>, now_ms: u64) -> (b:
    bool)
    requires
        stal@.len() == atoms@.len(),
        forall|i: int|
            0 <= i < atoms@.len() ==> stal@[i] == spec_staleness(atoms@[i], atoms@, now_ms as int),
    ensures
        b == spec_has_urgent_dependency(*a, atoms@, now_ms as int),
{
    let task = "task".to_owned();
    let links_len = a.links.len();
    for j in 0..links_len
        invariant
            task@ == "task"@,
            links_len == a.links@.len(),
            stal@.len() == atoms@.len(),
            forall|i: int|
                0 <= i < atoms@.len() ==> stal@[i] == spec_staleness(
                    atoms@[i],
                    atoms@,
                    now_ms as int,
                ),
            forall|j2: int, i2: int|
                0 <= j2 < j && 0 <= i2 < atoms@.len() ==> !(atoms@[i2].id@ == a.links@[j2]@
                    && atoms@[i2].kind@ == "task"@ && spec_staleness(
                    atoms@[i2],
                    atoms@,
                    now_ms as int,
                ) < STALE_THRESHOLD_03 as int),
    {
        let atoms_len = atoms.len();
        for i in 0..atoms_len
            invariant
                task@ == "task"@,
                links_len == a.links@.len(),
                atoms_len == atoms@.len(),
                j < a.links@.len(),
                stal@.len() == atoms@.len(),
                forall|i2: int|
                    0 <= i2 < atoms@.len() ==> stal@[i2] == spec_staleness(
                        atoms@[i2],
                        atoms@,
                        now_ms as int,
                    ),
                forall|j2: int, i2: int|
                    0 <= j2 < j && 0 <= i2 < atoms@.len() ==> !(atoms@[i2].id@ == a.links@[j2]@
                        && atoms@[i2].kind@ == "task"@ && spec_staleness(
                        atoms@[i2],
                        atoms@,
                        now_ms as int,
                    ) < STALE_THRESHOLD_03 as int),
                forall|i2: int|
                    0 <= i2 < i ==> !(atoms@[i2].id@ == a.links@[j as int]@ && atoms@[i2].kind@
                        == "task"@ && spec_staleness(atoms@[i2], atoms@, now_ms as int)
                        < STALE_THRESHOLD_03 as int),
        {
            if atoms[i].id == a.links[j] && atoms[i].kind == task && stal[i]
                < STALE_THRESHOLD_03 {
                return true;
            }
        }
    }
    false
}

/// The priority score and tier of a task or event atom, judged against the
/// precomputed staleness values in `stal`.
pub fn compute_priority(a: &Atom, atoms: &Vec<Atom>, stal: &Vec<u64>, now_ms: u64) -> (r: (
    u64,
    PriorityTier,
))
    requires
        stal@.len() == atoms@.len(),
        forall|i: int|
            0 <= i < atoms@.len() ==> stal@[i] == spec_staleness(atoms@[i], atoms@, now_ms as int),
    ensures
        r.0 == spec_priority_score(*a, atoms@, now_ms as int),
        r.1 == spec_priority_tier(*a, atoms@, now_ms as int),
        r.0 <= PPM,
{
    match &a.pinned_tier {
        Some(t) => {
            let tier = parse_tier(t);
            (tier_to_score(tier), tier)
        },
        None => {
            let du = deadline_urgency(a.due_date, now_ms);
            let imp = importance_of(a.importance);
            let rec = recency(a.updated_at, now_ms);
            let dep = has_urgent_dependency(a, atoms, stal, now_ms);
            let e = energy_of(a);
            let w: u64 = 400000 * du + 250000 * imp + 150000 * rec + if dep {
                150000 * 700000
            } else {
                0
            };
            let adj: u64 = match e {
                EnergyLevel::Quick => w + 5000000000,
                EnergyLevel::Medium => w,
                EnergyLevel::Deep => if w >= 2500000000 {
                    w - 2500000000
                } else {
                    0
                },
            };
            let sc = adj / PPM;
            let score = if sc > PPM {
                PPM
            } else {
                sc
            };
            (score, score_to_tier(score))
        },
    }
}

} // verus!
