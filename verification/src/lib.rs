//! DistroVitals: health tracking for open-source Linux distributions.
//!
//! The crate centres on a deterministic health scoring engine: a pure
//! function that turns the latest activity and community snapshots of a
//! tracked distribution into a normalized 0-100 health score with three
//! sub-scores and a directional trend, plus the aggregation layer that
//! flattens per-repository snapshots into summary metrics and the ranking
//! and history views built on the resulting score records.
//!
//! Scores are held in thousandths of a point (`50_000` is the neutral
//! 50.0), which represents every value of the fixed-weight blends exactly.

pub mod models;
pub mod sums;
pub mod buckets;
pub mod metrics;
pub mod analyzer;
pub mod rankings;
pub mod api;
pub mod collector;
