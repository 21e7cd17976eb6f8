//! The top-level engine: per-atom scores, and the `BinderCore` facade that
//! the embedding host drives. Each entry point is a pure function of the
//! atom collection and the current time.
use vstd::prelude::*;
use vstd::arithmetic::div_mod::lemma_div_is_ordered;
use crate::compress::{candidates_match, filter_compression_candidates_core};
use crate::energy::{energy_of, spec_energy};
use crate::entropy::{compute_entropy_core, entropy_matches};
use crate::fixed::{OPACITY_MIN, PPM, STALE_ONE};
use crate::priority::{compute_priority, spec_priority_score, spec_priority_tier};
use crate::staleness::{spec_staleness, staleness_of};
use crate::types::{Atom, AtomScore, CompressionCandidate, EntropyScore, PriorityTier};

verus! {

/// Whether `a` receives a priority score: only tasks and events do.
pub open spec fn spec_is_scored_kind(a: Atom) -> bool {
    a.kind@ == "task"@ || a.kind@ == "event"@
}

/// Visual decay derived from staleness: `1 - 0.4 * staleness`, clamped to
/// [0.6, 1.0], over [`STALE_ONE`].
pub open spec fn spec_opacity(s: int) -> int {
    let o = STALE_ONE as int - (2 * s) / 5;
    if o < OPACITY_MIN as int {
        OPACITY_MIN as int
    } else if o > STALE_ONE as int {
        STALE_ONE as int
    } else {
        o
    }
}

/// Visual decay derived from staleness.
pub fn opacity_of(s: u64) -> (o: u64)
    requires
        s <= STALE_ONE,
    ensures
        o == spec_opacity(s as int),
        OPACITY_MIN <= o <= STALE_ONE,
{
    proof {
        lemma_div_is_ordered(2 * s as int, 2 * STALE_ONE as int, 5);
    }
    let dec = (2 * s) / 5;
    let o = STALE_ONE - dec;
    if o < OPACITY_MIN {
        OPACITY_MIN
    } else {
        o
    }
}

/// Whether a score list is the one the model assigns to these inputs:
/// one entry per atom, in input order, carrying the atom's staleness,
/// opacity, energy, and — for tasks and events only — priority.
pub open spec fn scores_match(atoms: Seq<Atom>, now: int, r: Seq<AtomScore>) -> bool {
    &&& r.len() == atoms.len()
    &&& forall|i: int|
        0 <= i < atoms.len() ==> {
            let a = atoms[i];
            &&& (#[trigger] r[i]).id@ == a.id@
            &&& r[i].staleness == spec_staleness(a, atoms, now)
            &&& r[i].opacity == spec_opacity(spec_staleness(a, atoms, now))
            &&& r[i].energy == spec_energy(a)
            &&& r[i].priority_score == (if spec_is_scored_kind(a) {
                spec_priority_score(a, atoms, now)
            } else {
                0
            })
            &&& r[i].priority_tier == (if spec_is_scored_kind(a) {
                Some(spec_priority_tier(a, atoms, now))
            } else {
                None::<PriorityTier>
            })
        }
}

/// Staleness, priority and energy for every atom, in input order.
///
/// Staleness is computed for the whole collection first, because priority's
/// dependency-urgency factor reads the staleness of linked atoms.
pub fn compute_scores_core(atoms: &Vec<Atom>, now_ms: u64) -> (r: Vec<AtomScore>)
    ensures
        scores_match(atoms@, now_ms as int, r@),
{
    let n = atoms.len();
    let mut stal: Vec<u64> = Vec::new();
    for i in 0..n
        invariant
            n == atoms@.len(),
            stal@.len() == i,
            forall|t: int|
                0 <= t < i ==> (#[trigger] stal@[t]) == spec_staleness(
                    atoms@[t],
                    atoms@,
                    now_ms as int,
                ) && stal@[t] <= STALE_ONE,
    {
        stal.push(staleness_of(&atoms[i], atoms, now_ms));
    }
    let task = "task".to_owned();
    let event = "event".to_owned();
    let mut r: Vec<AtomScore> = Vec::new();
    for i in 0..n
        invariant
            task@ == "task"@,
            event@ == "event"@,
            n == atoms@.len(),
            stal@.len() == atoms@.len(),
            forall|t: int|
                0 <= t < atoms@.len() ==> (#[trigger] stal@[t]) == spec_staleness(
                    atoms@[t],
                    atoms@,
                    now_ms as int,
                ) && stal@[t] <= STALE_ONE,
            r@.len() == i,
            forall|t: int|
                0 <= t < i ==> {
                    let a = atoms@[t];
                    &&& (#[trigger] r@[t]).id@ == a.id@
                    &&& r@[t].staleness == spec_staleness(a, atoms@, now_ms as int)
                    &&& r@[t].opacity == spec_opacity(spec_staleness(a, atoms@, now_ms as int))
                    &&& r@[t].energy == spec_energy(a)
                    &&& r@[t].priority_score == (if spec_is_scored_kind(a) {
                        spec_priority_score(a, atoms@, now_ms as int)
                    } else {
                        0
                    })
                    &&& r@[t].priority_tier == (if spec_is_scored_kind(a) {
                        Some(spec_priority_tier(a, atoms@, now_ms as int))
                    } else {
                        None::<PriorityTier>
                    })
                },
    {
        let a = &atoms[i];
        let staleness = stal[i];
        let opacity = opacity_of(staleness);
        let energy = energy_of(a);
        let scored = a.kind == task || a.kind == event;
        let (priority_score, priority_tier) = if scored {
            let (score, tier) = compute_priority(a, atoms, &stal, now_ms);
            (score, Some(tier))
        } else {
            (0u64, None)
        };
        r.push(
            AtomScore {
                id: a.id.clone(),
                staleness,
                priority_tier,
                priority_score,
                energy,
                opacity,
            },
        );
    }
    r
}

/// The scoring engine exposed to the embedding host. It holds only its own
/// version string; every operation is stateless.
pub struct BinderCore {
    /// The crate version reported by `version`.
    pub version: String,
}

impl BinderCore {
    /// Create an engine instance.
    pub fn new() -> (c: BinderCore)
        ensures
            c.version@ == "0.1.0"@,
    {
        BinderCore { version: "0.1.0".to_owned() }
    }

    /// Smoke test for host communication: returns "pong".
    pub fn ping(&self) -> (r: String)
        ensures
            r@ == "pong"@,
    {
        "pong".to_owned()
    }

    /// The crate version string.
    pub fn version(&self) -> (r: String)
        ensures
            r@ == self.version@,
    {
        self.version.clone()
    }

    /// Staleness, priority and energy for every atom, in input order.
    pub fn compute_scores(&self, atoms: &Vec<Atom>, now_ms: u64) -> (r: Vec<AtomScore>)
        ensures
            scores_match(atoms@, now_ms as int, r@),
    {
        compute_scores_core(atoms, now_ms)
    }

    /// The entropy health score of the collection.
    pub fn compute_entropy(
        &self,
        atoms: &Vec<Atom>,
        inbox_count: u32,
        inbox_cap: u32,
        task_cap: u32,
        now_ms: u64,
    ) -> (r: EntropyScore)
        ensures
            entropy_matches(atoms@, inbox_count, inbox_cap, task_cap, now_ms as int, r),
    {
        compute_entropy_core(atoms, inbox_count, inbox_cap, task_cap, now_ms)
    }

    /// The compression candidates of the collection, in input order.
    pub fn filter_compression_candidates(&self, atoms: &Vec<Atom>, now_ms: u64) -> (r: Vec<
        CompressionCandidate,
    >)
        ensures
            candidates_match(atoms@, now_ms as int, r@),
    {
        filter_compression_candidates_core(atoms, now_ms)
    }
}

} // verus!
