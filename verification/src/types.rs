//! Data model for the scoring engine.
//!
//! All quantities are exact integers:
//! - timestamps are milliseconds since the Unix epoch (`u64`);
//! - staleness and opacity are fixed-point fractions of [`crate::fixed::STALE_ONE`]
//!   (2^60), so a staleness of `STALE_ONE / 2` means 0.5;
//! - priority and entropy scores, and importance, are parts per million
//!   (a score of 700_000 means 0.70).
use vstd::prelude::*;

verus! {

/// One unit of content in the knowledge/task graph.
///
/// Atoms are read-only inputs: every engine call is a pure function of the
/// atom collection and the current time. `links` may name ids that are absent
/// from the collection; such links are silently ignored.
pub struct Atom {
    /// Opaque identifier, unique within one call's atom set.
    pub id: String,
    /// One of "task", "event", "note", ...; only tasks and events are
    /// given a priority score.
    pub kind: String,
    /// Time of last edit, milliseconds since the epoch.
    pub updated_at: u64,
    /// Creation time, milliseconds since the epoch.
    pub created_at: u64,
    /// Free-form state; "open" and "in-progress" are recognized task states.
    pub status: String,
    /// Ids of linked atoms, one-directional.
    pub links: Vec<String>,
    /// Optional deadline, milliseconds since the epoch.
    pub due_date: Option<u64>,
    /// Optional explicit priority-tier override.
    pub pinned_tier: Option<String>,
    /// When true, staleness is frozen at zero.
    pub pinned_staleness: bool,
    /// Optional importance in parts per million of 1.0; clamped to
    /// [0, 1_000_000] on use, defaulting to 500_000 when absent.
    pub importance: Option<u64>,
    /// Optional explicit energy-level override.
    pub energy: Option<String>,
    /// Content text, used only for energy inference.
    pub content: String,
}

/// Discrete priority bucket.
#[derive(Clone, Copy, PartialEq, Eq, Structural, Debug)]
pub enum PriorityTier {
    Critical,
    High,
    Medium,
    Low,
    Someday,
}

/// Cognitive-effort category of an atom.
#[derive(Clone, Copy, PartialEq, Eq, Structural, Debug)]
pub enum EnergyLevel {
    Quick,
    Medium,
    Deep,
}

/// Health classification of the whole collection.
#[derive(Clone, Copy, PartialEq, Eq, Structural, Debug)]
pub enum EntropyLevel {
    Green,
    Yellow,
    Red,
}

/// Per-atom output of `compute_scores`.
pub struct AtomScore {
    /// Id of the scored atom.
    pub id: String,
    /// Decay value, a fraction of [`crate::fixed::STALE_ONE`].
    pub staleness: u64,
    /// Present only for task and event atoms.
    pub priority_tier: Option<PriorityTier>,
    /// Priority in parts per million; 0 for kinds that are not scored.
    pub priority_score: u64,
    /// Energy classification.
    pub energy: EnergyLevel,
    /// Visual decay in [0.6, 1.0], a fraction of [`crate::fixed::STALE_ONE`].
    pub opacity: u64,
}

/// Aggregate output of `compute_entropy`.
pub struct EntropyScore {
    /// Health score in parts per million of 1.0.
    pub score: u64,
    /// Three-level classification of `score`.
    pub level: EntropyLevel,
    /// Number of atoms of kind "task" with status "open" or "in-progress".
    pub open_tasks: u64,
    /// Number of atoms whose staleness exceeds 0.7.
    pub stale_count: u64,
    /// Number of atoms with no links that are more than 7 days old.
    pub zero_link_count: u64,
    /// The inbox count that was passed in, echoed back.
    pub inbox_count: u32,
}

/// Why an atom is a compression candidate. The day counts are whole days,
/// rounded down.
#[derive(Clone, Copy, PartialEq, Eq, Structural, Debug)]
pub enum CompressionReason {
    /// Staleness exceeds 0.8; carries days since the last edit.
    Stale { days_since_edit: u64 },
    /// No links and created more than 14 days ago; carries days since creation.
    Orphan { days_old: u64 },
}

/// One archival candidate from `filter_compression_candidates`.
pub struct CompressionCandidate {
    /// Id of the flagged atom.
    pub id: String,
    /// Why the atom was flagged; stale takes precedence over orphan.
    pub reason: CompressionReason,
    /// The atom's staleness, a fraction of [`crate::fixed::STALE_ONE`].
    pub staleness: u64,
}

} // verus!
