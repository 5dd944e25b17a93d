//! Change-history extraction: classification of tree diffs into per-file
//! line and hunk counters, per-commit handling decisions, and flattening of
//! commit records into one record per touched file.

pub mod classify;
pub mod flatten;
pub mod model;
pub mod walk;
