//! A uniform step circuit that replaces its one-element state by the state's
//! hash.

use crate::circuit::{StepCircuit, StepOutcome, SynthesisError, Uniform};
use crate::field::{lemma_from_u64_value, Scalar};
use crate::nivc::{shape_of, step_allowed, ProofState, ProveError};
use bellpepper_core::num::AllocatedNum;
use bellpepper_core::test_cs::TestConstraintSystem;
use bellpepper_core::ConstraintSystem;
use ff::PrimeField;
use generic_array::typenum::U1;
use neptune::circuit::{poseidon_hash_circuit, CircuitType};
use neptune::poseidon::PoseidonConstants;
use nova_snark::provider::PallasEngine;
use nova_snark::traits::Engine;
use vstd::prelude::*;

verus! {

/// The circuit.
#[derive(Clone, Copy, Debug, Default)]
pub struct TestCircuit {}

/// What the Poseidon circuit of `neptune`, in its first form and under the
/// constants of `PoseidonConstants::new` for one input, gives for `x`: the
/// hash, or `None` where the circuit reports an error or holds no value.
pub uninterp spec fn legacy_digest(x: Scalar) -> Option<Scalar>;

/// Runs `neptune`'s `poseidon_hash_circuit` in the form `CircuitType::Legacy`
/// on one allocated number that holds `x`, in a constraint system of
/// `bellpepper_core` that records assignments, under the constants of
/// `PoseidonConstants::new()`. The result is the value that the circuit's
/// output holds, or `None` where the circuit reports an error or its output
/// holds none: either way a function of `x` alone, with no other input.
#[verifier::external_body]
fn legacy_hash(x: &Scalar) -> (r: Option<Scalar>)
    ensures
        r == legacy_digest(*x),
{
    let constants = PoseidonConstants::<<PallasEngine as Engine>::Scalar, U1>::new();
    let mut cs = TestConstraintSystem::new();
    let value = <PallasEngine as Engine>::Scalar::from_raw(x.limbs());
    let z = AllocatedNum::alloc(cs.namespace(|| "z"), || Ok(value)).ok()?;
    let hash = poseidon_hash_circuit(&mut cs, CircuitType::Legacy, vec![z], &constants).ok()?;
    Scalar::from_bytes_le(&hash.get_value()?.to_repr())
}

impl TestCircuit {
    pub fn new() -> (c: TestCircuit)
        ensures
            c == (TestCircuit {  }),
    {
        TestCircuit {  }
    }

    /// The state that a step leaves, given what the hash circuit returned.
    pub fn next_state(digest: Option<Scalar>) -> (out: StepOutcome)
        ensures
            match digest {
                Some(d) => out matches Ok(next) && next@ == seq![d],
                None => out == Err::<Vec<Scalar>, SynthesisError>(SynthesisError {  }),
            },
    {
        match digest {
            Some(d) => {
                let mut next: Vec<Scalar> = Vec::new();
                next.push(d);
                Ok(next)
            },
            None => Err(SynthesisError {  }),
        }
    }
}

impl StepCircuit for TestCircuit {
    open spec fn arity_spec(&self) -> nat {
        1
    }

    open spec fn step_spec(&self, z: Seq<Scalar>, out: Result<Seq<Scalar>, SynthesisError>) -> bool {
        out == match legacy_digest(z[0]) {
            Some(d) => Ok::<Seq<Scalar>, SynthesisError>(seq![d]),
            None => Err::<Seq<Scalar>, SynthesisError>(SynthesisError {  }),
        }
    }

    fn arity(&self) -> (n: usize) {
        1
    }

    fn synthesize(&self, z: &[Scalar]) -> (out: StepOutcome) {
        let digest = legacy_hash(&z[0]);
        TestCircuit::next_state(digest)
    }
}

/// One step of the circuit, run in every step of a chain. From a state that
/// does not hold exactly one element the step is refused with
/// `ArityMismatch`: the state is neither cut to its first element nor padded.
/// From a state of one element the step leaves the hash of that element
/// where the hash circuit gives one, and fails with `SynthesisError` where
/// it gives none.
pub proof fn law_uniform_hash_step(
    circuit: &Uniform<TestCircuit>,
    p: ProofState,
    r: Result<ProofState, ProveError>,
)
    requires
        step_allowed(p, shape_of(circuit), circuit, r),
    ensures
        p.z_i.len() != 1 ==> r == Err::<ProofState, ProveError>(ProveError::ArityMismatch),
        p.z_i.len() == 1 ==> r == (match legacy_digest(p.z_i[0]) {
            Some(d) => Ok::<ProofState, ProveError>(
                ProofState { i: p.i + 1, z_0: p.z_0, z_i: seq![d], last_pc: Some(0u64) },
            ),
            None => Err::<ProofState, ProveError>(ProveError::SynthesisError),
        }),
{
    lemma_from_u64_value(0);
}

} // verus!
