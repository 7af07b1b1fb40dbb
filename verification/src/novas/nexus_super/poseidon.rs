//! A family of one circuit that replaces its one-element state by the
//! state's digest.

use crate::circuit::{NonUniformCircuit, StepOutcome, SynthesisError};
use crate::field::{lemma_from_u64_value, Scalar};
use crate::nivc::{closed, select_spec, shape_of, ProveError};
use crate::sponge::{sponge_digest, sponge_hash, PoseidonConfig};
use vstd::prelude::*;

verus! {

/// The circuit, with the configuration of the sponge that it hashes with.
#[derive(Debug)]
pub struct TestCircuit(pub PoseidonConfig);

impl TestCircuit {
    /// The state that a step leaves, given the digest of the state before.
    pub fn next_state(digest: Scalar) -> (out: StepOutcome)
        ensures
            out matches Ok(next) && next@ == seq![digest],
    {
        let mut next: Vec<Scalar> = Vec::new();
        next.push(digest);
        Ok(next)
    }
}

impl NonUniformCircuit for TestCircuit {
    open spec fn arity_spec(&self) -> nat {
        1
    }

    open spec fn num_circuits_spec(&self) -> nat {
        1
    }

    open spec fn selector_spec(&self, z: Seq<Scalar>) -> Scalar {
        Scalar::spec_from_u64(0)
    }

    open spec fn step_spec(&self, pc: u64, z: Seq<Scalar>, out: Result<Seq<Scalar>, SynthesisError>) -> bool {
        out == Ok::<Seq<Scalar>, SynthesisError>(seq![sponge_digest(self.0@, seq![z[0]])])
    }

    fn arity(&self) -> (n: usize) {
        1
    }

    fn num_circuits(&self) -> (n: usize) {
        1
    }

    fn compute_selector(&self, z: &[Scalar]) -> (pc: Scalar) {
        Scalar::zero()
    }

    fn generate_constraints(&self, pc: u64, z: &[Scalar]) -> (out: StepOutcome) {
        assert(z@ =~= seq![z@[0]]);
        let digest = sponge_hash(&self.0, z);
        TestCircuit::next_state(digest)
    }
}

/// The hashing family meets its own constraints on every step: each step
/// leaves one element, and the selector is zero on every state.
pub proof fn law_hash_closed(circuit: &TestCircuit)
    ensures
        closed(circuit),
{
    lemma_from_u64_value(0);
}

/// The selector of the hashing family is zero on every state, whatever the
/// state holds, and so names the family's one variant.
pub proof fn law_hash_selector_zero(circuit: &TestCircuit, z: Seq<Scalar>)
    ensures
        circuit.selector_spec(z).value() == 0,
        circuit.selector_spec(z).value() < circuit.num_circuits_spec(),
        select_spec(shape_of(circuit), circuit.selector_spec(z)) == Ok::<u64, ProveError>(0u64),
{
    lemma_from_u64_value(0);
}

} // verus!
