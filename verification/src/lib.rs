//! Project bookkeeping for a small command-line tool: a registry of managed
//! directories, per-directory descriptor markers, and the reconciliation
//! engine that decides which version-control and hosting operations to
//! propose, in what order, and under which confirmations.
//!
//! All decision logic lives here, stated and verified; the surrounding
//! binary performs the file, process and terminal work and feeds the
//! results back in as plain values.

pub mod descriptor;
pub mod engine;
pub mod registry;
pub mod sync;
pub mod text;
pub mod version;
