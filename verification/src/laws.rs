//! Cross-cutting laws of the engine, stated and proved over the same spec
//! functions that the public functions' contracts use.
use vstd::prelude::*;
use crate::compress::{spec_is_candidate, spec_reason};
use crate::engine::scores_match;
use crate::entropy::spec_is_stale;
use crate::fixed::{COMPRESSION_MIN_AGE_MS, HALF_LIFE_MS, PPM, STALE_HALF, STALE_THRESHOLD_07,
    STALE_THRESHOLD_08};
use crate::priority::{spec_deadline_urgency, spec_priority_score};
use crate::staleness::{
    lemma_double_half_life_strictly_slower, lemma_staleness_monotone_in_age, spec_age,
    spec_effective_half_life, spec_has_fresh_link, spec_is_onboarding, spec_raw_staleness,
    spec_staleness,
};
use crate::types::{Atom, AtomScore, CompressionReason};

verus! {

/// A pinned atom's staleness is zero, regardless of its age.
pub proof fn lemma_pinned_staleness_is_zero(a: Atom, atoms: Seq<Atom>, now: int)
    requires
        a.pinned_staleness,
    ensures
        spec_staleness(a, atoms, now) == 0,
{
}

/// The fresh-link boost depends only on an atom's links, so two atoms with
/// the same links agree on it.
proof fn lemma_fresh_link_same_links(a1: Atom, a2: Atom, atoms: Seq<Atom>, now: int)
    requires
        a1.links@ == a2.links@,
    ensures
        spec_has_fresh_link(a1, atoms, now) == spec_has_fresh_link(a2, atoms, now),
{
    if spec_has_fresh_link(a1, atoms, now) {
        let (j, i) = choose|j: int, i: int|
            0 <= j < a1.links@.len() && 0 <= i < atoms.len() && atoms[i].id@ == a1.links@[j]@
                && spec_raw_staleness(now, atoms[i].updated_at as int) < STALE_HALF as int;
        assert(0 <= j < a2.links@.len() && 0 <= i < atoms.len() && atoms[i].id@ == a2.links@[j]@
            && spec_raw_staleness(now, atoms[i].updated_at as int) < STALE_HALF as int);
    }
    if spec_has_fresh_link(a2, atoms, now) {
        let (j, i) = choose|j: int, i: int|
            0 <= j < a2.links@.len() && 0 <= i < atoms.len() && atoms[i].id@ == a2.links@[j]@
                && spec_raw_staleness(now, atoms[i].updated_at as int) < STALE_HALF as int;
        assert(0 <= j < a1.links@.len() && 0 <= i < atoms.len() && atoms[i].id@ == a1.links@[j]@
            && spec_raw_staleness(now, atoms[i].updated_at as int) < STALE_HALF as int);
    }
}

/// The effective half-life is at least one millisecond.
proof fn lemma_effective_half_life_pos(a: Atom, atoms: Seq<Atom>, now: int)
    ensures
        spec_effective_half_life(a, atoms, now) >= HALF_LIFE_MS as int,
{
}

/// Staleness never decreases as the time since the last edit grows, all
/// other inputs held fixed: of two atoms that differ only in `updated_at`,
/// the one edited longer ago is at least as stale.
pub proof fn lemma_staleness_monotone_in_edit_age(a1: Atom, a2: Atom, atoms: Seq<Atom>, now: int)
    requires
        a1.pinned_staleness == a2.pinned_staleness,
        a1.created_at == a2.created_at,
        a1.links@ == a2.links@,
        spec_age(now, a1.updated_at as int) <= spec_age(now, a2.updated_at as int),
    ensures
        spec_staleness(a1, atoms, now) <= spec_staleness(a2, atoms, now),
{
    if !a1.pinned_staleness {
        lemma_fresh_link_same_links(a1, a2, atoms, now);
        assert(spec_effective_half_life(a1, atoms, now) == spec_effective_half_life(
            a2,
            atoms,
            now,
        ));
        lemma_effective_half_life_pos(a1, atoms, now);
        lemma_staleness_monotone_in_age(
            spec_age(now, a1.updated_at as int),
            spec_age(now, a2.updated_at as int),
            spec_effective_half_life(a1, atoms, now),
        );
    }
}

/// Onboarding forgiveness: of two unpinned atoms that differ only in
/// `created_at`, one created less than 30 days ago and one created 30 or
/// more days ago, the young one is strictly less stale — provided the shared
/// time since the last edit is at least two seconds (so the difference
/// registers in the fixed-point model) and less than eighty base half-lives
/// (so the faster decay has not saturated).
pub proof fn lemma_onboarding_decays_strictly_slower(
    a_young: Atom,
    a_old: Atom,
    atoms: Seq<Atom>,
    now: int,
)
    requires
        !a_young.pinned_staleness,
        !a_old.pinned_staleness,
        a_young.updated_at == a_old.updated_at,
        a_young.links@ == a_old.links@,
        spec_is_onboarding(a_young, now),
        !spec_is_onboarding(a_old, now),
        2000 <= spec_age(now, a_old.updated_at as int),
        spec_age(now, a_old.updated_at as int) < 80 * HALF_LIFE_MS as int,
    ensures
        spec_staleness(a_young, atoms, now) < spec_staleness(a_old, atoms, now),
{
    lemma_fresh_link_same_links(a_young, a_old, atoms, now);
    let hl_old = spec_effective_half_life(a_old, atoms, now);
    let hl_young = spec_effective_half_life(a_young, atoms, now);
    // Doubling the onboarding base commutes with the fresh-link boost:
    // 2 * (hl + hl/2) == 2*hl + (2*hl)/2 because the base half-life is even.
    assert(hl_young == 2 * hl_old);
    let age = spec_age(now, a_old.updated_at as int);
    assert(HALF_LIFE_MS as int <= hl_old <= HALF_LIFE_MS as int + HALF_LIFE_MS as int / 2);
    assert(age * 0x100000 >= 2000 * 0x100000);
    lemma_double_half_life_strictly_slower(age, hl_old);
}

/// A pinned tier bypasses the five-factor formula: any two atoms pinned to
/// the same tier string receive the same score, whatever their due dates,
/// links, importance, collections or evaluation times.
pub proof fn lemma_pinned_tier_bypasses_formula(
    a1: Atom,
    a2: Atom,
    atoms1: Seq<Atom>,
    atoms2: Seq<Atom>,
    now1: int,
    now2: int,
)
    requires
        a1.pinned_tier is Some,
        a1.pinned_tier == a2.pinned_tier,
    ensures
        spec_priority_score(a1, atoms1, now1) == spec_priority_score(a2, atoms2, now2),
{
}

/// Deadline urgency is 0 without a due date and exactly 1.0 for an atom due
/// now or overdue by any margin.
pub proof fn lemma_deadline_urgency_edges(d: u64, now: int)
    ensures
        spec_deadline_urgency(None, now) == 0,
        d <= now ==> spec_deadline_urgency(Some(d), now) == PPM as int,
{
}

/// An unpinned atom with no links, created more than 14 days ago, is always
/// a compression candidate: with a stale reason when its staleness exceeds
/// 0.8, and with an orphan reason otherwise — stale takes precedence.
pub proof fn lemma_orphan_and_stale_reasons(a: Atom, atoms: Seq<Atom>, now: int)
    requires
        !a.pinned_staleness,
        a.links@.len() == 0,
        spec_age(now, a.created_at as int) > COMPRESSION_MIN_AGE_MS as int,
    ensures
        spec_is_candidate(a, atoms, now),
        spec_staleness(a, atoms, now) > STALE_THRESHOLD_08 as int ==> spec_reason(a, atoms, now)
            == (CompressionReason::Stale {
            days_since_edit: (spec_age(now, a.updated_at as int) / 86400000) as u64,
        }),
        spec_staleness(a, atoms, now) <= STALE_THRESHOLD_08 as int ==> spec_reason(a, atoms, now)
            == (CompressionReason::Orphan {
            days_old: (spec_age(now, a.created_at as int) / 86400000) as u64,
        }),
{
}

/// Boundary consistency across components: an atom's staleness as reported
/// by `compute_scores` exceeds 0.7 exactly when `compute_entropy`'s own
/// independent staleness pass counts that atom as stale.
pub proof fn lemma_stale_boundary_consistent(atoms: Seq<Atom>, now: int, r: Seq<AtomScore>)
    requires
        scores_match(atoms, now, r),
    ensures
        forall|i: int|
            0 <= i < atoms.len() ==> (((#[trigger] r[i]).staleness > STALE_THRESHOLD_07)
                <==> spec_is_stale(atoms[i], atoms, now)),
{
}

} // verus!
