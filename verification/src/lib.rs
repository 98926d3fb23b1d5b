//! Repository status scanning: each configured project names a working tree,
//! and the scanner reports whether that tree has uncommitted local
//! modifications relative to its last recorded snapshot.

pub mod git;
pub mod scan;
pub mod status;
