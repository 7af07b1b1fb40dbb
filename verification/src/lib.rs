//! Step circuits for non-uniform incremental computation, and the
//! bookkeeping of a chain of steps.

use crate::circuit::{NonUniformCircuit, StepOutcome, SynthesisError};
use crate::field::{fr_add, fr_double, modulus, Scalar};
use crate::nivc::{
    closed, fresh, is_run, law_arity_invariant, law_setup_shape, setup_allowed, shape_of, step_allowed, NIVCProof,
    ProofState, PublicParams, RunError, VerificationError,
};
use vstd::prelude::*;

pub mod circuit;
pub mod field;
pub mod nivc;
pub mod novas;
pub mod sponge;

verus! {

/// A family of two circuits on a state of two elements: variant 0 adds two
/// to the second element, variant 1 doubles it. The first element holds the
/// selector, which each step flips between zero and one.
#[derive(Debug, Default)]
pub struct TestCircuit {}

impl NonUniformCircuit for TestCircuit {
    open spec fn arity_spec(&self) -> nat {
        2
    }

    open spec fn num_circuits_spec(&self) -> nat {
        2
    }

    open spec fn selector_spec(&self, z: Seq<Scalar>) -> Scalar {
        z[0]
    }

    open spec fn step_spec(&self, pc: u64, z: Seq<Scalar>, out: Result<Seq<Scalar>, SynthesisError>) -> bool {
        &&& out matches Ok(next)
        &&& next.len() == 2
        &&& next[0].value() == (if z[0].value() == 0 { 1nat } else { 0nat })
        &&& next[1].value() == (if pc == 0 {
            (z[1].value() + 2) % modulus()
        } else {
            (2 * z[1].value()) % modulus()
        })
    }

    fn arity(&self) -> (n: usize) {
        2
    }

    fn num_circuits(&self) -> (n: usize) {
        2
    }

    fn compute_selector(&self, z: &[Scalar]) -> (pc: Scalar) {
        z[0]
    }

    fn generate_constraints(&self, pc: u64, z: &[Scalar]) -> (out: StepOutcome) {
        let x = &z[1];
        let y = if pc == 0 {
            fr_add(x, &Scalar::from_u64(2))
        } else {
            fr_double(x)
        };
        let pc_next = if z[0].is_zero() {
            Scalar::one()
        } else {
            Scalar::zero()
        };
        let mut next: Vec<Scalar> = Vec::new();
        next.push(pc_next);
        next.push(y);
        Ok(next)
    }
}

/// The two-variant circuit meets its own constraints on every step: each
/// step leaves two elements, the first of which is zero or one.
pub proof fn law_toggle_closed(circuit: &TestCircuit)
    ensures
        closed(circuit),
{
}

/// From a state whose selector is zero, two steps of the two-variant circuit
/// run variant 0 and then variant 1: they add two to the second element,
/// double the sum, and leave the selector at zero again.
pub proof fn law_toggle_two_steps(circuit: &TestCircuit, a: ProofState, b: ProofState, c: ProofState)
    requires
        a.z_i.len() == 2,
        a.z_i[0].value() == 0,
        step_allowed(a, shape_of(circuit), circuit, Ok(b)),
        step_allowed(b, shape_of(circuit), circuit, Ok(c)),
    ensures
        b.last_pc == Some(0u64),
        c.last_pc == Some(1u64),
        c.i == a.i + 2,
        c.z_0 == a.z_0,
        c.z_i.len() == 2,
        c.z_i[0].value() == 0,
        c.z_i[1].value() == (2 * ((a.z_i[1].value() + 2) % modulus())) % modulus(),
{
}

/// What a run of `num_steps` steps of `circuit` from `z_0` may end in: an
/// accepted chain of that many steps, or the first refusal on the way.
pub open spec fn run_allowed<C: NonUniformCircuit>(
    circuit: &C,
    z_0: Seq<Scalar>,
    num_steps: nat,
    r: Result<ProofState, RunError>,
) -> bool {
    match r {
        Ok(p) => {
            &&& z_0.len() == circuit.arity_spec()
            &&& setup_allowed(circuit, Ok(shape_of(circuit)))
            &&& p.i == num_steps
            &&& p.z_0 == z_0
            &&& p.z_i.len() == circuit.arity_spec()
            &&& exists|chain: Seq<ProofState>|
                #[trigger] is_run(circuit, shape_of(circuit), z_0, chain) && chain.len() == num_steps + 1
                    && chain.last() == p
        },
        Err(RunError::Setup(e)) => setup_allowed(circuit, Err(e)),
        Err(RunError::Prove(e)) => {
            &&& setup_allowed(circuit, Ok(shape_of(circuit)))
            &&& exists|chain: Seq<ProofState>|
                #[trigger] is_run(circuit, shape_of(circuit), z_0, chain) && chain.len() <= num_steps
                    && step_allowed(chain.last(), shape_of(circuit), circuit, Err(e))
        },
        Err(RunError::Verification(e)) => {
            &&& setup_allowed(circuit, Ok(shape_of(circuit)))
            &&& num_steps == 0
            &&& z_0.len() != circuit.arity_spec()
            &&& e == VerificationError::ArityMismatch
        },
    }
}

/// The result of a run with the chain as a mathematical value.
pub open spec fn run_view(r: Result<NIVCProof, RunError>) -> Result<ProofState, RunError> {
    match r {
        Ok(p) => Ok(p@),
        Err(e) => Err(e),
    }
}

/// Derives the parameters of `circuit`, takes `num_steps` steps from `z_0`
/// and holds the chain against that number of steps.
pub fn nivc_multiple_steps<C: NonUniformCircuit>(circuit: &C, z_0: &[Scalar], num_steps: usize) -> (r: Result<
    NIVCProof,
    RunError,
>)
    ensures
        run_allowed(circuit, z_0@, num_steps as nat, run_view(r)),
{
    let params = match PublicParams::setup(circuit) {
        Ok(params) => params,
        Err(e) => {
            return Err(RunError::Setup(e));
        },
    };
    proof {
        law_setup_shape(circuit, Ok(params@));
    }
    let mut recursive_snark = NIVCProof::new(z_0);
    let ghost mut chain: Seq<ProofState> = seq![fresh(z_0@)];
    let mut k: usize = 0;
    while k < num_steps
        invariant
            k <= num_steps,
            params@ == shape_of(circuit),
            setup_allowed(circuit, Ok(shape_of(circuit))),
            chain.len() == k + 1,
            chain.last() == recursive_snark@,
            is_run(circuit, shape_of(circuit), z_0@, chain),
            recursive_snark@.i == k,
        decreases num_steps - k,
    {
        match recursive_snark.prove_step(&params, circuit) {
            Ok(next) => {
                proof {
                    let longer = chain.push(next@);
                    assert forall|j: int| 0 <= j < longer.len() - 1 implies step_allowed(
                        longer[j],
                        shape_of(circuit),
                        circuit,
                        Ok(#[trigger] longer[j + 1]),
                    ) by {
                        if j < chain.len() - 1 {
                            assert(longer[j] == chain[j] && longer[j + 1] == chain[j + 1]);
                        }
                    }
                    law_arity_invariant(circuit, shape_of(circuit), z_0@, longer, longer.len() - 1);
                    chain = longer;
                }
                recursive_snark = next;
            },
            Err(e) => {
                assert(is_run(circuit, shape_of(circuit), z_0@, chain) && step_allowed(
                    chain.last(),
                    shape_of(circuit),
                    circuit,
                    Err(e),
                ));
                return Err(RunError::Prove(e));
            },
        }
        k += 1;
    }
    proof {
        law_arity_invariant(circuit, shape_of(circuit), z_0@, chain, chain.len() - 1);
    }
    match recursive_snark.verify(&params, num_steps) {
        Ok(()) => Ok(recursive_snark),
        Err(e) => Err(RunError::Verification(e)),
    }
}

} // verus!
