use binder_core::energy::{infer_energy, parse_energy};
use binder_core::engine::BinderCore;
use binder_core::fixed::isqrt64;
use binder_core::priority::{deadline_urgency, score_to_tier};
use binder_core::fixed::{PPM, STALE_ONE, STALE_THRESHOLD_07};
use binder_core::types::{Atom, CompressionReason, EnergyLevel, EntropyLevel, PriorityTier};

const DAY: u64 = 86400000;
const NOW: u64 = 1_700_000_000_000;

fn clone_atom(a: &Atom) -> Atom {
    Atom {
        id: a.id.clone(),
        kind: a.kind.clone(),
        updated_at: a.updated_at,
        created_at: a.created_at,
        status: a.status.clone(),
        links: a.links.clone(),
        due_date: a.due_date,
        pinned_tier: a.pinned_tier.clone(),
        pinned_staleness: a.pinned_staleness,
        importance: a.importance,
        energy: a.energy.clone(),
        content: a.content.clone(),
    }
}

fn base_atom(id: &str, kind: &str, updated_at: u64, created_at: u64) -> Atom {
    Atom {
        id: id.to_string(),
        kind: kind.to_string(),
        updated_at,
        created_at,
        status: "open".to_string(),
        links: vec![],
        due_date: None,
        pinned_tier: None,
        pinned_staleness: false,
        importance: None,
        energy: None,
        content: String::new(),
    }
}

#[test]
fn ping_and_version() {
    let core = BinderCore::new();
    assert_eq!(core.ping(), "pong");
    assert_eq!(core.version(), "0.1.0");
}

#[test]
fn pinned_staleness_is_zero_regardless_of_age() {
    let core = BinderCore::new();
    let mut a = base_atom("a", "note", NOW - 1000 * DAY, NOW - 1000 * DAY);
    a.pinned_staleness = true;
    let scores = core.compute_scores(&vec![a], NOW);
    assert_eq!(scores.len(), 1);
    assert_eq!(scores[0].staleness, 0);
    assert_eq!(scores[0].opacity, STALE_ONE);
}

#[test]
fn staleness_exact_at_one_half_life() {
    // Not onboarding, no links: half-life 14 days, so after exactly 14 days
    // staleness is exactly one half.
    let core = BinderCore::new();
    let a = base_atom("a", "note", NOW - 14 * DAY, NOW - 100 * DAY);
    let scores = core.compute_scores(&vec![a], NOW);
    assert_eq!(scores[0].staleness, STALE_ONE / 2);
}

#[test]
fn staleness_monotone_in_age() {
    let core = BinderCore::new();
    let younger = base_atom("a", "note", NOW - 14 * DAY, NOW - 100 * DAY);
    let older = base_atom("a", "note", NOW - 20 * DAY, NOW - 100 * DAY);
    let s_young = core.compute_scores(&vec![younger], NOW)[0].staleness;
    let s_old = core.compute_scores(&vec![older], NOW)[0].staleness;
    assert!(s_young < s_old);
    // A future updated_at clamps to age zero.
    let future = base_atom("a", "note", NOW + DAY, NOW - 100 * DAY);
    assert_eq!(core.compute_scores(&vec![future], NOW)[0].staleness, 0);
}

#[test]
fn onboarding_atom_decays_strictly_slower() {
    // Same 14-day edit age; created 10 days ago vs 40 days ago. The young
    // atom's half-life doubles to 28 days: staleness exactly one quarter.
    let core = BinderCore::new();
    let young = base_atom("a", "note", NOW - 14 * DAY, NOW - 10 * DAY);
    let old = base_atom("a", "note", NOW - 14 * DAY, NOW - 40 * DAY);
    let s_young = core.compute_scores(&vec![young], NOW)[0].staleness;
    let s_old = core.compute_scores(&vec![old], NOW)[0].staleness;
    assert_eq!(s_young, STALE_ONE / 4);
    assert_eq!(s_old, STALE_ONE / 2);
    assert!(s_young < s_old);
}

#[test]
fn fresh_link_slows_decay_and_missing_links_are_ignored() {
    let core = BinderCore::new();
    let mut a = base_atom("a", "note", NOW - 14 * DAY, NOW - 100 * DAY);
    a.links = vec!["b".to_string()];
    let fresh_b = base_atom("b", "note", NOW - DAY, NOW - 100 * DAY);
    let stale_b = base_atom("b", "note", NOW - 100 * DAY, NOW - 100 * DAY);

    let with_fresh = core.compute_scores(&vec![clone_atom(&a), fresh_b], NOW);
    let with_stale = core.compute_scores(&vec![clone_atom(&a), stale_b], NOW);
    let dangling = core.compute_scores(&vec![a], NOW);

    // A fresh link stretches the half-life to 21 days; a stale link or a
    // dangling id leaves the base half-life, giving staleness exactly 0.5.
    assert!(with_fresh[0].staleness < with_stale[0].staleness);
    assert_eq!(with_stale[0].staleness, STALE_ONE / 2);
    assert_eq!(dangling[0].staleness, STALE_ONE / 2);
}

#[test]
fn score_to_tier_boundaries() {
    assert_eq!(score_to_tier(800000), PriorityTier::Critical);
    assert_eq!(score_to_tier(799999), PriorityTier::High);
    assert_eq!(score_to_tier(600000), PriorityTier::High);
    assert_eq!(score_to_tier(599999), PriorityTier::Medium);
    assert_eq!(score_to_tier(400000), PriorityTier::Medium);
    assert_eq!(score_to_tier(399999), PriorityTier::Low);
    assert_eq!(score_to_tier(200000), PriorityTier::Low);
    assert_eq!(score_to_tier(199999), PriorityTier::Someday);
}

#[test]
fn pinned_tier_bypasses_formula() {
    let core = BinderCore::new();
    let mut a = base_atom("a", "task", NOW, NOW - 100 * DAY);
    a.pinned_tier = Some("high".to_string());
    a.due_date = Some(NOW - 10 * DAY); // overdue, would raise the formula
    a.importance = Some(PPM);
    a.links = vec!["b".to_string()];
    let scores = core.compute_scores(&vec![a], NOW);
    assert_eq!(scores[0].priority_score, 700000);
    assert_eq!(scores[0].priority_tier, Some(PriorityTier::High));

    // Parsing is case-insensitive and falls back to Someday.
    let mut b = base_atom("b", "event", NOW, NOW);
    b.pinned_tier = Some("CRITICAL".to_string());
    let scores = core.compute_scores(&vec![b], NOW);
    assert_eq!(scores[0].priority_score, 900000);
    assert_eq!(scores[0].priority_tier, Some(PriorityTier::Critical));

    let mut c = base_atom("c", "task", NOW, NOW);
    c.pinned_tier = Some("whenever".to_string());
    let scores = core.compute_scores(&vec![c], NOW);
    assert_eq!(scores[0].priority_score, 100000);
    assert_eq!(scores[0].priority_tier, Some(PriorityTier::Someday));
}

#[test]
fn non_scored_kinds_get_no_tier() {
    let core = BinderCore::new();
    let a = base_atom("a", "note", NOW, NOW);
    let scores = core.compute_scores(&vec![a], NOW);
    assert_eq!(scores[0].priority_score, 0);
    assert_eq!(scores[0].priority_tier, None);
}

#[test]
fn deadline_urgency_edges() {
    assert_eq!(deadline_urgency(None, NOW), 0);
    assert_eq!(deadline_urgency(Some(NOW), NOW), PPM);
    assert_eq!(deadline_urgency(Some(NOW - 1), NOW), PPM);
    assert_eq!(deadline_urgency(Some(NOW - 500 * DAY), NOW), PPM);
    assert_eq!(deadline_urgency(Some(NOW + 30 * DAY + 1), NOW), 0);
    // Due in 7.5 days: 1 - sqrt(0.25) = 0.5, exactly.
    assert_eq!(deadline_urgency(Some(NOW + 7 * DAY + DAY / 2), NOW), 500000);
}

#[test]
fn formula_score_exact_value() {
    // due in 7.5 days (urgency 0.5), importance default 0.5, updated now
    // (recency 1.0), no dependencies, energy quick (+0.1):
    // 0.40*0.5 + 0.25*0.5 + 0.15*1.0 + 0 + 0.05*0.1 = 0.48.
    let core = BinderCore::new();
    let mut a = base_atom("a", "task", NOW, NOW - 100 * DAY);
    a.due_date = Some(NOW + 7 * DAY + DAY / 2);
    a.energy = Some("quick".to_string());
    let scores = core.compute_scores(&vec![a], NOW);
    assert_eq!(scores[0].priority_score, 480000);
    assert_eq!(scores[0].priority_tier, Some(PriorityTier::Medium));
}

#[test]
fn dependency_urgency_needs_a_fresh_task_link() {
    let core = BinderCore::new();
    // The scored task contributes nothing through the other four factors:
    // no due date, importance 0, edited 40 days ago, energy medium.
    let mut a = base_atom("a", "task", NOW - 40 * DAY, NOW - 100 * DAY);
    a.importance = Some(0);
    a.energy = Some("medium".to_string());
    a.links = vec!["b".to_string()];

    let fresh_task = base_atom("b", "task", NOW - DAY, NOW - 100 * DAY);
    let fresh_note = base_atom("b", "note", NOW - DAY, NOW - 100 * DAY);
    let stale_task = base_atom("b", "task", NOW - 200 * DAY, NOW - 300 * DAY);

    let with_fresh_task = core.compute_scores(&vec![clone_atom(&a), fresh_task], NOW);
    assert_eq!(with_fresh_task[0].priority_score, 105000);

    let with_fresh_note = core.compute_scores(&vec![clone_atom(&a), fresh_note], NOW);
    assert_eq!(with_fresh_note[0].priority_score, 0);

    let with_stale_task = core.compute_scores(&vec![a, stale_task], NOW);
    assert_eq!(with_stale_task[0].priority_score, 0);
}

#[test]
fn energy_override_and_inference() {
    assert_eq!(parse_energy(&"QUICK".to_string()), EnergyLevel::Quick);
    assert_eq!(parse_energy(&"Deep".to_string()), EnergyLevel::Deep);
    assert_eq!(parse_energy(&"later".to_string()), EnergyLevel::Medium);

    // Short content is Quick.
    assert_eq!(infer_energy(&"tiny note".to_string()), EnergyLevel::Quick);
    // The Quick check runs before the Deep check: a short text with a
    // deep-work keyword still classifies Quick.
    assert_eq!(infer_energy(&"research the plan".to_string()), EnergyLevel::Quick);
    // A mid-length text with a quick keyword is Quick.
    let quickish = format!("{} a QUICK look at the numbers {}", "x".repeat(30), "y".repeat(30));
    assert_eq!(infer_energy(&quickish), EnergyLevel::Quick);
    // A mid-length text with a deep keyword is Deep.
    let deepish = format!("{} Research the market {}", "x".repeat(30), "y".repeat(30));
    assert_eq!(infer_energy(&deepish), EnergyLevel::Deep);
    // Long content is Deep.
    assert_eq!(infer_energy(&"z".repeat(201)), EnergyLevel::Deep);
    // A mid-length text without keywords is Medium.
    assert_eq!(infer_energy(&"m".repeat(100)), EnergyLevel::Medium);
    // An explicit override wins over inference.
    let core = BinderCore::new();
    let mut a = base_atom("a", "note", NOW, NOW);
    a.content = "z".repeat(201);
    a.energy = Some("quick".to_string());
    assert_eq!(core.compute_scores(&vec![a], NOW)[0].energy, EnergyLevel::Quick);
}

#[test]
fn opacity_tracks_staleness() {
    let core = BinderCore::new();
    // Staleness 0 gives opacity 1.0.
    let fresh = base_atom("a", "note", NOW, NOW - 100 * DAY);
    assert_eq!(core.compute_scores(&vec![fresh], NOW)[0].opacity, STALE_ONE);
    // Staleness 0.5 gives opacity 1 - 0.2 = 0.8.
    let half = base_atom("a", "note", NOW - 14 * DAY, NOW - 100 * DAY);
    assert_eq!(core.compute_scores(&vec![half], NOW)[0].opacity, STALE_ONE - STALE_ONE / 5);
}

#[test]
fn entropy_of_empty_collection_is_green_zero() {
    let core = BinderCore::new();
    let r = core.compute_entropy(&vec![], 0, 10, 10, NOW);
    assert_eq!(r.score, 0);
    assert_eq!(r.level, EntropyLevel::Green);
    assert_eq!(r.open_tasks, 0);
    assert_eq!(r.stale_count, 0);
    assert_eq!(r.zero_link_count, 0);
    assert_eq!(r.inbox_count, 0);
}

#[test]
fn entropy_counts_and_score() {
    let core = BinderCore::new();
    // One open task (fresh, linked), one closed task, one fresh note.
    let mut open_task = base_atom("t1", "task", NOW, NOW - DAY);
    open_task.links = vec!["n1".to_string()];
    let mut done_task = base_atom("t2", "task", NOW, NOW - DAY);
    done_task.status = "done".to_string();
    done_task.links = vec!["n1".to_string()];
    let mut note = base_atom("n1", "note", NOW, NOW - DAY);
    note.links = vec!["t1".to_string()];
    let r = core.compute_entropy(&vec![open_task, done_task, note], 5, 10, 10, NOW);
    assert_eq!(r.open_tasks, 1);
    assert_eq!(r.stale_count, 0);
    assert_eq!(r.zero_link_count, 0);
    // 0.35 * 1/10 + 0.35 * 5/10 = 0.035 + 0.175 = 0.21.
    assert_eq!(r.score, 210000);
    assert_eq!(r.level, EntropyLevel::Green);
}

#[test]
fn entropy_level_boundaries() {
    let core = BinderCore::new();
    // 0.35 * 3/7 + 0.35 * 10/10 = 0.15 + 0.35 = 0.50 exactly: yellow.
    let mut tasks: Vec<Atom> = Vec::new();
    for i in 0..3 {
        let mut t = base_atom(&format!("t{}", i), "task", NOW, NOW - DAY);
        t.links = vec!["x".to_string()];
        tasks.push(t);
    }
    let r = core.compute_entropy(&tasks, 10, 10, 7, NOW);
    assert_eq!(r.score, 500000);
    assert_eq!(r.level, EntropyLevel::Yellow);

    // 0.35 * 2/7 + 0.35 * 13/7 = 0.1 + 0.65 = 0.75 exactly: red.
    let mut two: Vec<Atom> = Vec::new();
    for i in 0..2 {
        let mut t = base_atom(&format!("t{}", i), "task", NOW, NOW - DAY);
        t.links = vec!["x".to_string()];
        two.push(t);
    }
    let r = core.compute_entropy(&two, 13, 7, 7, NOW);
    assert_eq!(r.score, 750000);
    assert_eq!(r.level, EntropyLevel::Red);
}

#[test]
fn entropy_caps_floored_at_one() {
    let core = BinderCore::new();
    let mut t = base_atom("t", "task", NOW, NOW - DAY);
    t.links = vec!["x".to_string()];
    // Caps of zero behave as one: 0.35 * 1/1 + 0.35 * 2/1 = 1.05, clamped.
    let r = core.compute_entropy(&vec![t], 2, 0, 0, NOW);
    assert_eq!(r.score, PPM);
    assert_eq!(r.level, EntropyLevel::Red);
}

#[test]
fn compression_stale_takes_precedence_over_orphan() {
    let core = BinderCore::new();
    // No links, created and edited 100 days ago: both conditions hold,
    // the stale reason wins.
    let both = base_atom("a", "note", NOW - 100 * DAY, NOW - 100 * DAY);
    let r = core.filter_compression_candidates(&vec![both], NOW);
    assert_eq!(r.len(), 1);
    assert_eq!(r[0].id, "a");
    assert_eq!(r[0].reason, CompressionReason::Stale { days_since_edit: 100 });

    // Edited yesterday but created 20 days ago with no links: orphan.
    let orphan = base_atom("b", "note", NOW - DAY, NOW - 20 * DAY);
    let r = core.filter_compression_candidates(&vec![orphan], NOW);
    assert_eq!(r.len(), 1);
    assert_eq!(r[0].reason, CompressionReason::Orphan { days_old: 20 });

    // A pinned atom is skipped outright.
    let mut pinned = base_atom("c", "note", NOW - 100 * DAY, NOW - 100 * DAY);
    pinned.pinned_staleness = true;
    assert_eq!(core.filter_compression_candidates(&vec![pinned], NOW).len(), 0);

    // A linked, recently-created atom is not a candidate.
    let mut linked = base_atom("d", "note", NOW - DAY, NOW - DAY);
    linked.links = vec!["a".to_string()];
    assert_eq!(core.filter_compression_candidates(&vec![linked], NOW).len(), 0);
}

#[test]
fn compression_preserves_input_order() {
    let core = BinderCore::new();
    let first = base_atom("first", "note", NOW - 100 * DAY, NOW - 100 * DAY);
    let skipped = base_atom("mid", "note", NOW, NOW);
    let second = base_atom("second", "note", NOW - DAY, NOW - 20 * DAY);
    let r = core.filter_compression_candidates(&vec![first, skipped, second], NOW);
    assert_eq!(r.len(), 2);
    assert_eq!(r[0].id, "first");
    assert_eq!(r[1].id, "second");
}

#[test]
fn stale_classification_consistent_across_components() {
    let core = BinderCore::new();
    let mut atoms: Vec<Atom> = Vec::new();
    for i in 0..6 {
        // Ages from 0 to 100 days, straddling the 0.7 staleness boundary.
        let age = [0u64, 10, 20, 30, 50, 100][i] * DAY;
        atoms.push(base_atom(&format!("a{}", i), "note", NOW - age, NOW - 200 * DAY));
    }
    let scores = core.compute_scores(&atoms, NOW);
    let threshold = STALE_THRESHOLD_07;
    let from_scores = scores.iter().filter(|s| s.staleness > threshold).count() as u64;
    let entropy = core.compute_entropy(&atoms, 0, 10, 10, NOW);
    assert_eq!(entropy.stale_count, from_scores);
    assert!(from_scores > 0);
}

#[test]
fn isqrt_exact_values() {
    assert_eq!(isqrt64(0), 0);
    assert_eq!(isqrt64(1), 1);
    assert_eq!(isqrt64(3), 1);
    assert_eq!(isqrt64(4), 2);
    assert_eq!(isqrt64(999999), 999);
    assert_eq!(isqrt64(1000000), 1000);
    assert_eq!(isqrt64(250000000000), 500000);
    assert_eq!(isqrt64(u64::MAX), 4294967295);
}

#[test]
fn entropy_zero_link_needs_age_over_seven_days() {
    let core = BinderCore::new();
    // Created 10 days ago with no links: counted.
    let old_orphan = base_atom("a", "note", NOW, NOW - 10 * DAY);
    // Created exactly 7 days ago: the age must strictly exceed 7 days.
    let boundary = base_atom("b", "note", NOW, NOW - 7 * DAY);
    // Linked: never counted.
    let mut linked = base_atom("c", "note", NOW, NOW - 10 * DAY);
    linked.links = vec!["a".to_string()];
    let r = core.compute_entropy(&vec![old_orphan, boundary, linked], 0, 10, 10, NOW);
    assert_eq!(r.zero_link_count, 1);
}

#[test]
fn importance_is_clamped_and_defaulted() {
    let core = BinderCore::new();
    // Importance above 1.0 clamps to 1.0: score 0.25 + 0.15 (fresh) = 0.40.
    let mut a = base_atom("a", "task", NOW, NOW - 100 * DAY);
    a.importance = Some(5 * PPM);
    a.energy = Some("medium".to_string());
    let scores = core.compute_scores(&vec![a], NOW);
    assert_eq!(scores[0].priority_score, 400000);
    assert_eq!(scores[0].priority_tier, Some(PriorityTier::Medium));

    // Absent importance defaults to 0.5: score 0.125 + 0.15 = 0.275.
    let mut b = base_atom("b", "task", NOW, NOW - 100 * DAY);
    b.energy = Some("medium".to_string());
    let scores = core.compute_scores(&vec![b], NOW);
    assert_eq!(scores[0].priority_score, 275000);
    assert_eq!(scores[0].priority_tier, Some(PriorityTier::Low));
}

#[test]
fn deep_energy_penalty_floors_at_zero() {
    let core = BinderCore::new();
    // All other factors zero, energy deep: 0.05 * -0.05 clamps to 0.
    let mut a = base_atom("a", "task", NOW - 40 * DAY, NOW - 100 * DAY);
    a.importance = Some(0);
    a.energy = Some("deep".to_string());
    let scores = core.compute_scores(&vec![a], NOW);
    assert_eq!(scores[0].priority_score, 0);
    assert_eq!(scores[0].priority_tier, Some(PriorityTier::Someday));
}

#[test]
fn scores_keep_input_order_and_ids() {
    let core = BinderCore::new();
    let atoms = vec![
        base_atom("x", "task", NOW, NOW),
        base_atom("y", "note", NOW, NOW),
        base_atom("z", "event", NOW, NOW),
    ];
    let scores = core.compute_scores(&atoms, NOW);
    assert_eq!(scores.len(), 3);
    assert_eq!(scores[0].id, "x");
    assert_eq!(scores[1].id, "y");
    assert_eq!(scores[2].id, "z");
    assert!(scores[0].priority_tier.is_some());
    assert!(scores[1].priority_tier.is_none());
    assert!(scores[2].priority_tier.is_some());
}
