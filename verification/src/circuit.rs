//! What a family of step circuits offers to the chain that runs it.

use crate::field::Scalar;
use vstd::prelude::*;

verus! {

/// A step circuit could not compute its output from the state it was given.
#[derive(Clone, Copy, Debug, PartialEq, Eq, Structural)]
pub struct SynthesisError {}

/// What a step gives: the next state, or the reason there is none.
pub type StepOutcome = Result<Vec<Scalar>, SynthesisError>;

/// The outcome of a step with the state as a sequence.
pub open spec fn outcome_view(out: StepOutcome) -> Result<Seq<Scalar>, SynthesisError> {
    match out {
        Ok(v) => Ok(v@),
        Err(e) => Err(e),
    }
}

/// A family of step circuits, one of which runs in each step; the state picks
/// the one that runs next.
pub trait NonUniformCircuit {
    /// The length of the state that every variant takes and gives.
    spec fn arity_spec(&self) -> nat;

    /// The number of variants in the family.
    spec fn num_circuits_spec(&self) -> nat;

    /// The selector that the family reads off a state.
    spec fn selector_spec(&self, z: Seq<Scalar>) -> Scalar;

    /// Whether variant `pc` may answer `out` on the state `z`.
    spec fn step_spec(&self, pc: u64, z: Seq<Scalar>, out: Result<Seq<Scalar>, SynthesisError>) -> bool;

    fn arity(&self) -> (n: usize)
        ensures
            n == self.arity_spec(),
    ;

    fn num_circuits(&self) -> (n: usize)
        ensures
            n == self.num_circuits_spec(),
    ;

    /// The field element that names the variant to run on `z`.
    fn compute_selector(&self, z: &[Scalar]) -> (pc: Scalar)
        requires
            z@.len() == self.arity_spec(),
        ensures
            pc == self.selector_spec(z@),
    ;

    /// Runs variant `pc` on the state `z`.
    fn generate_constraints(&self, pc: u64, z: &[Scalar]) -> (out: StepOutcome)
        requires
            pc < self.num_circuits_spec(),
            z@.len() == self.arity_spec(),
        ensures
            self.step_spec(pc, z@, outcome_view(out)),
    ;
}

/// A single step circuit that runs in every step.
pub trait StepCircuit {
    /// The length of the state that the circuit takes and gives.
    spec fn arity_spec(&self) -> nat;

    /// Whether the circuit may answer `out` on the state `z`.
    spec fn step_spec(&self, z: Seq<Scalar>, out: Result<Seq<Scalar>, SynthesisError>) -> bool;

    fn arity(&self) -> (n: usize)
        ensures
            n == self.arity_spec(),
    ;

    /// Runs the circuit on the state `z`.
    fn synthesize(&self, z: &[Scalar]) -> (out: StepOutcome)
        requires
            z@.len() == self.arity_spec(),
        ensures
            self.step_spec(z@, outcome_view(out)),
    ;
}

/// A single step circuit as a family of one variant, with the selector fixed
/// at zero.
pub struct Uniform<C>(pub C);

impl<C: StepCircuit> NonUniformCircuit for Uniform<C> {
    open spec fn arity_spec(&self) -> nat {
        self.0.arity_spec()
    }

    open spec fn num_circuits_spec(&self) -> nat {
        1
    }

    open spec fn selector_spec(&self, z: Seq<Scalar>) -> Scalar {
        Scalar::spec_from_u64(0)
    }

    open spec fn step_spec(&self, pc: u64, z: Seq<Scalar>, out: Result<Seq<Scalar>, SynthesisError>) -> bool {
        self.0.step_spec(z, out)
    }

    fn arity(&self) -> (n: usize) {
        self.0.arity()
    }

    fn num_circuits(&self) -> (n: usize) {
        1
    }

    fn compute_selector(&self, z: &[Scalar]) -> (pc: Scalar) {
        Scalar::zero()
    }

    fn generate_constraints(&self, pc: u64, z: &[Scalar]) -> (out: StepOutcome) {
        self.0.synthesize(z)
    }
}

} // verus!
