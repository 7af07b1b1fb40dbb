//! The step circuits, by the proving backend that each was written for.

pub mod ms;
pub mod nexus_super;
