//! The entropy model: one aggregate health score for the whole collection,
//! from open-task load, inbox load, stale ratio and orphan ratio. Caps and
//! the atom count are floored at one to avoid division by zero.
use vstd::prelude::*;
use crate::fixed::{ORPHAN_MIN_AGE_MS, PPM, STALE_THRESHOLD_07};
use crate::staleness::{age_of, spec_age, spec_staleness, staleness_of};
use crate::types::{Atom, EntropyLevel, EntropyScore};

verus! {

/// Whether `a` is an open task: kind "task" with status "open" or
/// "in-progress".
pub open spec fn spec_is_open_task(a: Atom) -> bool {
    a.kind@ == "task"@ && (a.status@ == "open"@ || a.status@ == "in-progress"@)
}

/// Whether `a` counts as stale for the entropy score: staleness above 0.7.
pub open spec fn spec_is_stale(a: Atom, atoms: Seq<Atom>, now: int) -> bool {
    spec_staleness(a, atoms, now) > STALE_THRESHOLD_07 as int
}

/// Whether `a` counts as a zero-link atom: no links and created more than
/// seven days ago.
pub open spec fn spec_is_zero_link(a: Atom, now: int) -> bool {
    a.links@.len() == 0 && spec_age(now, a.created_at as int) > ORPHAN_MIN_AGE_MS as int
}

/// Number of open tasks in `s`.
pub open spec fn spec_open_task_count(s: Seq<Atom>) -> int
    decreases s.len(),
{
    if s.len() == 0 {
        0
    } else {
        spec_open_task_count(s.drop_last()) + if spec_is_open_task(s.last()) {
            1int
        } else {
            0int
        }
    }
}

/// Number of atoms of `s` that are stale within the collection `atoms`.
pub open spec fn spec_stale_count(s: Seq<Atom>, atoms: Seq<Atom>, now: int) -> int
    decreases s.len(),
{
    if s.len() == 0 {
        0
    } else {
        spec_stale_count(s.drop_last(), atoms, now) + if spec_is_stale(s.last(), atoms, now) {
            1int
        } else {
            0int
        }
    }
}

/// Number of zero-link atoms in `s`.
pub open spec fn spec_zero_link_count(s: Seq<Atom>, now: int) -> int
    decreases s.len(),
{
    if s.len() == 0 {
        0
    } else {
        spec_zero_link_count(s.drop_last(), now) + if spec_is_zero_link(s.last(), now) {
            1int
        } else {
            0int
        }
    }
}

/// `x` floored at one, guarding the divisions below.
pub open spec fn spec_floor_one(x: int) -> int {
    if x < 1 {
        1
    } else {
        x
    }
}

/// The entropy score in parts per million: `0.35 * open/taskCap +
/// 0.35 * inbox/inboxCap + 0.20 * stale/total + 0.10 * zeroLink/total`,
/// clamped to [0, 1].
pub open spec fn spec_entropy_score(
    open: int,
    inbox: int,
    stale: int,
    zero_link: int,
    inbox_cap: int,
    task_cap: int,
    total: int,
) -> int {
    let raw = (350000 * open) / spec_floor_one(task_cap) + (350000 * inbox) / spec_floor_one(
        inbox_cap,
    ) + (200000 * stale) / spec_floor_one(total) + (100000 * zero_link) / spec_floor_one(total);
    if raw > PPM as int {
        PPM as int
    } else {
        raw
    }
}

/// The level of an entropy score: below 0.5 green, below 0.75 yellow,
/// else red.
pub open spec fn spec_entropy_level(score: int) -> EntropyLevel {
    if score < 500000 {
        EntropyLevel::Green
    } else if score < 750000 {
        EntropyLevel::Yellow
    } else {
        EntropyLevel::Red
    }
}

/// Whether an entropy result is the one the model assigns to these inputs.
pub open spec fn entropy_matches(
    atoms: Seq<Atom>,
    inbox_count: u32,
    inbox_cap: u32,
    task_cap: u32,
    now: int,
    r: EntropyScore,
) -> bool {
    &&& r.open_tasks == spec_open_task_count(atoms)
    &&& r.stale_count == spec_stale_count(atoms, atoms, now)
    &&& r.zero_link_count == spec_zero_link_count(atoms, now)
    &&& r.inbox_count == inbox_count
    &&& r.score == spec_entropy_score(
        spec_open_task_count(atoms),
        inbox_count as int,
        spec_stale_count(atoms, atoms, now),
        spec_zero_link_count(atoms, now),
        inbox_cap as int,
        task_cap as int,
        atoms.len() as int,
    )
    &&& r.level == spec_entropy_level(r.score as int)
    &&& r.score <= PPM
}

/// The clamped weighted sum of the four load ratios.
fn entropy_score_of(
    open: u64,
    inbox: u32,
    stale: u64,
    zero_link: u64,
    inbox_cap: u32,
    task_cap: u32,
    total: u64,
) -> (score: u64)
    ensures
        score == spec_entropy_score(
            open as int,
            inbox as int,
            stale as int,
            zero_link as int,
            inbox_cap as int,
            task_cap as int,
            total as int,
        ),
        score <= PPM,
{
    let task_cap_safe: u64 = if task_cap < 1 {
        1
    } else {
        task_cap as u64
    };
    let inbox_cap_safe: u64 = if inbox_cap < 1 {
        1
    } else {
        inbox_cap as u64
    };
    let total_safe: u64 = if total < 1 {
        1
    } else {
        total
    };
    let raw: u128 = (350000u128 * (open as u128)) / (task_cap_safe as u128) + (350000u128 * (
    inbox as u128)) / (inbox_cap_safe as u128) + (200000u128 * (stale as u128)) / (
    total_safe as u128) + (100000u128 * (zero_link as u128)) / (total_safe as u128);
    if raw > PPM as u128 {
        PPM
    } else {
        raw as u64
    }
}

/// The entropy health score of the collection at `now_ms`. Staleness is
/// re-derived here, independently of `compute_scores`.
pub fn compute_entropy_core(
    atoms: &Vec<Atom>,
    inbox_count: u32,
    inbox_cap: u32,
    task_cap: u32,
    now_ms: u64,
) -> (r: EntropyScore)
    ensures
        entropy_matches(atoms@, inbox_count, inbox_cap, task_cap, now_ms as int, r),
{
    let task = "task".to_owned();
    let open = "open".to_owned();
    let in_progress = "in-progress".to_owned();
    let mut open_tasks: u64 = 0;
    let mut stale_count: u64 = 0;
    let mut zero_link_count: u64 = 0;
    let n = atoms.len();
    for i in 0..n
        invariant
            task@ == "task"@,
            open@ == "open"@,
            in_progress@ == "in-progress"@,
            n == atoms@.len(),
            open_tasks <= i && stale_count <= i && zero_link_count <= i,
            open_tasks == spec_open_task_count(atoms@.take(i as int)),
            stale_count == spec_stale_count(atoms@.take(i as int), atoms@, now_ms as int),
            zero_link_count == spec_zero_link_count(atoms@.take(i as int), now_ms as int),
    {
        proof {
            assert(atoms@.take(i + 1).drop_last() =~= atoms@.take(i as int));
            assert(atoms@.take(i + 1).last() == atoms@[i as int]);
        }
        let a = &atoms[i];
        if a.kind == task && (a.status == open || a.status == in_progress) {
            open_tasks = open_tasks + 1;
        }
        let s = staleness_of(a, atoms, now_ms);
        if s > STALE_THRESHOLD_07 {
            stale_count = stale_count + 1;
        }
        if a.links.len() == 0 && age_of(now_ms, a.created_at) > ORPHAN_MIN_AGE_MS {
            zero_link_count = zero_link_count + 1;
        }
    }
    proof {
        assert(atoms@.take(n as int) =~= atoms@);
    }
    let score = entropy_score_of(
        open_tasks,
        inbox_count,
        stale_count,
        zero_link_count,
        inbox_cap,
        task_cap,
        n as u64,
    );
    let level = if score < 500000 {
        EntropyLevel::Green
    } else if score < 750000 {
        EntropyLevel::Yellow
    } else {
        EntropyLevel::Red
    };
    EntropyScore {
        score,
        level,
        open_tasks,
        stale_count,
        zero_link_count,
        inbox_count,
    }
}

} // verus!
