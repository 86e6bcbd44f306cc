//! Foundational utilities for a modular node runtime: a two-tier fault
//! classification algebra for subsystems (`fault`), and a generic aggregate
//! record with per-field type-substitution operations (`aggregate`).

pub mod aggregate;
pub mod fault;
