//! The compression filter: flags stale or orphaned atoms as archival
//! candidates, in input order. Pinned atoms are skipped; the stale reason
//! takes precedence over the orphan reason.
use vstd::prelude::*;
use crate::fixed::{COMPRESSION_MIN_AGE_MS, MS_PER_DAY, STALE_ONE, STALE_THRESHOLD_08};
use crate::staleness::{age_of, spec_age, spec_staleness, staleness_of};
use crate::types::{Atom, CompressionCandidate, CompressionReason};

verus! {

/// Whether `a` is flagged: not pinned, and either stale (staleness above
/// 0.8) or an orphan (no links, created more than 14 days ago).
pub open spec fn spec_is_candidate(a: Atom, atoms: Seq<Atom>, now: int) -> bool {
    !a.pinned_staleness && (spec_staleness(a, atoms, now) > STALE_THRESHOLD_08 as int || (
    a.links@.len() == 0 && spec_age(now, a.created_at as int) > COMPRESSION_MIN_AGE_MS as int))
}

/// The reason a flagged atom carries: stale wins over orphan; day counts
/// are whole days, rounded down.
pub open spec fn spec_reason(a: Atom, atoms: Seq<Atom>, now: int) -> CompressionReason {
    if spec_staleness(a, atoms, now) > STALE_THRESHOLD_08 as int {
        CompressionReason::Stale {
            days_since_edit: (spec_age(now, a.updated_at as int) / MS_PER_DAY as int) as u64,
        }
    } else {
        CompressionReason::Orphan {
            days_old: (spec_age(now, a.created_at as int) / MS_PER_DAY as int) as u64,
        }
    }
}

/// The flagged atoms of `s`, in order: id, reason and staleness of each.
pub open spec fn spec_candidates(s: Seq<Atom>, atoms: Seq<Atom>, now: int) -> Seq<
    (Seq<char>, CompressionReason, int),
>
    decreases s.len(),
{
    if s.len() == 0 {
        Seq::empty()
    } else {
        let prev = spec_candidates(s.drop_last(), atoms, now);
        let a = s.last();
        if spec_is_candidate(a, atoms, now) {
            prev.push((a.id@, spec_reason(a, atoms, now), spec_staleness(a, atoms, now)))
        } else {
            prev
        }
    }
}

/// Whether a candidate list is the one the model assigns to these inputs.
pub open spec fn candidates_match(atoms: Seq<Atom>, now: int, r: Seq<CompressionCandidate>) -> bool {
    let model = spec_candidates(atoms, atoms, now);
    &&& r.len() == model.len()
    &&& forall|i: int|
        0 <= i < r.len() ==> (#[trigger] r[i]).id@ == model[i].0 && r[i].reason == model[i].1
            && r[i].staleness == model[i].2
}

/// The compression candidates of the collection at `now_ms`, in input
/// order. Staleness is re-derived here, independently of the other entry
/// points.
pub fn filter_compression_candidates_core(atoms: &Vec<Atom>, now_ms: u64) -> (r: Vec<
    CompressionCandidate,
>)
    ensures
        candidates_match(atoms@, now_ms as int, r@),
{
    let mut r: Vec<CompressionCandidate> = Vec::new();
    let n = atoms.len();
    for i in 0..n
        invariant
            n == atoms@.len(),
            r@.len() == spec_candidates(atoms@.take(i as int), atoms@, now_ms as int).len(),
            forall|t: int|
                0 <= t < r@.len() ==> {
                    let model = spec_candidates(atoms@.take(i as int), atoms@, now_ms as int);
                    (#[trigger] r@[t]).id@ == model[t].0 && r@[t].reason == model[t].1
                        && r@[t].staleness == model[t].2
                },
    {
        proof {
            assert(atoms@.take(i + 1).drop_last() =~= atoms@.take(i as int));
            assert(atoms@.take(i + 1).last() == atoms@[i as int]);
        }
        let a = &atoms[i];
        if !a.pinned_staleness {
            let s = staleness_of(a, atoms, now_ms);
            let is_stale = s > STALE_THRESHOLD_08;
            let is_orphan = a.links.len() == 0 && age_of(now_ms, a.created_at)
                > COMPRESSION_MIN_AGE_MS;
            if is_stale {
                let days_since_edit = age_of(now_ms, a.updated_at) / MS_PER_DAY;
                r.push(
                    CompressionCandidate {
                        id: a.id.clone(),
                        reason: CompressionReason::Stale { days_since_edit },
                        staleness: s,
                    },
                );
            } else if is_orphan {
                let days_old = age_of(now_ms, a.created_at) / MS_PER_DAY;
                r.push(
                    CompressionCandidate {
                        id: a.id.clone(),
                        reason: CompressionReason::Orphan { days_old },
                        staleness: s,
                    },
                );
            }
        }
    }
    proof {
        assert(atoms@.take(n as int) =~= atoms@);
    }
    r
}

} // verus!
