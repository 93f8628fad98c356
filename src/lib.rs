//! Core logic for building a trajectory database from vehicle telemetry:
//! polyline decoding, trajectory summaries, map-matching reconciliation,
//! vehicle record decoding, table statements and the build pipeline.

pub mod polyline;
pub mod clock;
pub mod trajectory;
pub mod node;
pub mod vehicle;
pub mod db;
pub mod pipeline;
pub mod signal;
pub mod trace;
