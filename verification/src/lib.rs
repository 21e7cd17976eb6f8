//! Derived health and priority metrics for a personal knowledge/task graph.
//!
//! The engine is a pure, deterministic batch computation over a collection of
//! atoms (tasks, events, notes) and a current timestamp. It derives per-atom
//! staleness by exponential time decay, per-atom priority from five weighted
//! factors, one aggregate entropy score for the whole collection, and a list
//! of compression candidates. All arithmetic is exact fixed-point integer
//! arithmetic; see [`fixed`] for the scales.

pub mod compress;
pub mod energy;
pub mod engine;
pub mod entropy;
pub mod fixed;
pub mod laws;
pub mod priority;
pub mod staleness;
pub mod text;
pub mod types;
