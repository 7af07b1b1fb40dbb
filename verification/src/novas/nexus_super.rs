//! Families of step circuits over the Poseidon sponge.

pub mod arity_tree;
pub mod poseidon;
