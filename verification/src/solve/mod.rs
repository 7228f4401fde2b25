//! Solve-layer scaffolding: ordered station workflows with provenance tracing.
pub mod workflow;
pub mod study;
pub mod numeric;
