//! The chain of steps of a non-uniform incremental computation: which
//! variant runs next, what state it leaves, and when a step or a check is
//! refused. Folding the steps into a succinct argument is the work of a
//! proving backend; this module keeps the record that such a backend is
//! driven by and checked against.

use crate::circuit::{outcome_view, NonUniformCircuit, StepOutcome, SynthesisError};
use crate::field::Scalar;
use vstd::prelude::*;
use vstd::slice::slice_to_vec;

verus! {

/// The parameters could not be derived from the circuit family.
#[derive(Clone, Copy, Debug, PartialEq, Eq, Structural)]
pub struct SetupError {}

/// Why a step was refused.
#[derive(Clone, Copy, Debug, PartialEq, Eq, Structural)]
pub enum ProveError {
    /// The circuit could not compute its output.
    SynthesisError,
    /// The selector names no variant of the family.
    SelectorOutOfRange,
    /// The circuit is not of the shape that the parameters were derived
    /// for, or its output is not as long as its input.
    ShapeMismatch,
    /// The state to step from is not as long as the family's arity.
    ArityMismatch,
}

/// Why a run of several steps gave no accepted chain.
#[derive(Clone, Copy, Debug, PartialEq, Eq, Structural)]
pub enum RunError {
    /// The parameters could not be derived.
    Setup(SetupError),
    /// A step was refused.
    Prove(ProveError),
    /// The chain was not accepted.
    Verification(VerificationError),
}

/// Why a chain was not accepted.
#[derive(Clone, Copy, Debug, PartialEq, Eq, Structural)]
pub enum VerificationError {
    /// The chain does not hold the expected number of steps.
    StepCountMismatch,
    /// The first or the current state is not as long as the family's arity.
    ArityMismatch,
}

/// What the parameters fix of a circuit family.
pub struct Shape {
    pub arity: nat,
    pub num_circuits: nat,
}

/// What is derived once from a circuit family and then shared, unchanged, by
/// every chain that runs it.
#[derive(Clone, Copy, Debug, PartialEq, Eq)]
pub struct PublicParams {
    arity: usize,
    num_circuits: usize,
}

/// A chain of steps as a mathematical value.
pub struct ProofState {
    /// The number of steps taken.
    pub i: nat,
    /// The state before the first step.
    pub z_0: Seq<Scalar>,
    /// The state after the last step.
    pub z_i: Seq<Scalar>,
    /// The variant that ran last, if any step was taken.
    pub last_pc: Option<u64>,
}

/// The record of a chain of steps.
#[derive(Debug, PartialEq, Eq)]
pub struct NIVCProof {
    i: usize,
    z_0: Vec<Scalar>,
    z_i: Vec<Scalar>,
    last_pc: Option<u64>,
}

/// The chain that has taken no step from `z_0`.
pub open spec fn fresh(z_0: Seq<Scalar>) -> ProofState {
    ProofState { i: 0, z_0, z_i: z_0, last_pc: None }
}

/// The state of `len` zeros on which the variants are run once at setup.
pub open spec fn placeholder(len: nat) -> Seq<Scalar> {
    Seq::new(len, |i: int| Scalar::spec_from_u64(0))
}

/// Whether parameters can be derived from a family that declares `arity`
/// and answered `outcomes`, one per variant, on the placeholder state.
pub open spec fn shapes_agree(arity: nat, outcomes: Seq<Result<Seq<Scalar>, SynthesisError>>) -> bool {
    &&& outcomes.len() > 0
    &&& forall|pc: int|
        0 <= pc < outcomes.len() ==> (#[trigger] outcomes[pc] matches Ok(next) && next.len() == arity)
}

/// The parameters of a family that declares `arity` and answered `outcomes`.
pub open spec fn setup_spec(arity: nat, outcomes: Seq<Result<Seq<Scalar>, SynthesisError>>) -> Result<
    Shape,
    SetupError,
> {
    if shapes_agree(arity, outcomes) {
        Ok(Shape { arity, num_circuits: outcomes.len() })
    } else {
        Err(SetupError {  })
    }
}

/// The shape that `circuit` declares.
pub open spec fn shape_of<C: NonUniformCircuit>(circuit: &C) -> Shape {
    Shape { arity: circuit.arity_spec(), num_circuits: circuit.num_circuits_spec() }
}

/// Whether `r` is a result that the setup of `circuit` may have: its
/// variants, in order, answered something on the placeholder state, and `r`
/// is what follows from those answers.
pub open spec fn setup_allowed<C: NonUniformCircuit>(circuit: &C, r: Result<Shape, SetupError>) -> bool {
    exists|outcomes: Seq<Result<Seq<Scalar>, SynthesisError>>|
        {
            &&& outcomes.len() == circuit.num_circuits_spec()
            &&& forall|pc: int|
                0 <= pc < outcomes.len() ==> circuit.step_spec(
                    pc as u64,
                    placeholder(circuit.arity_spec()),
                    #[trigger] outcomes[pc],
                )
            &&& r == setup_spec(circuit.arity_spec(), outcomes)
        }
}

/// The variant that a selector names under `shape`.
pub open spec fn select_spec(shape: Shape, selector: Scalar) -> Result<u64, ProveError> {
    if selector.value() < shape.num_circuits && selector.value() <= u64::MAX {
        Ok(selector.value() as u64)
    } else {
        Err(ProveError::SelectorOutOfRange)
    }
}

/// The chain after variant `pc` answered `out` on the current state of `p`.
pub open spec fn advance_spec(
    p: ProofState,
    shape: Shape,
    pc: u64,
    out: Result<Seq<Scalar>, SynthesisError>,
) -> Result<ProofState, ProveError> {
    match out {
        Err(_) => Err(ProveError::SynthesisError),
        Ok(next) => if next.len() != shape.arity {
            Err(ProveError::ShapeMismatch)
        } else {
            Ok(ProofState { i: p.i + 1, z_0: p.z_0, z_i: next, last_pc: Some(pc) })
        },
    }
}

/// Whether `r` is a result that one step of `circuit` from `p` may have.
pub open spec fn step_allowed<C: NonUniformCircuit>(
    p: ProofState,
    shape: Shape,
    circuit: &C,
    r: Result<ProofState, ProveError>,
) -> bool {
    if circuit.arity_spec() != shape.arity || circuit.num_circuits_spec() != shape.num_circuits {
        r == Err::<ProofState, ProveError>(ProveError::ShapeMismatch)
    } else if p.z_i.len() != shape.arity {
        r == Err::<ProofState, ProveError>(ProveError::ArityMismatch)
    } else {
        match select_spec(shape, circuit.selector_spec(p.z_i)) {
            Err(e) => r == Err::<ProofState, ProveError>(e),
            Ok(pc) => exists|out: Result<Seq<Scalar>, SynthesisError>|
                #[trigger] circuit.step_spec(pc, p.z_i, out) && r == advance_spec(p, shape, pc, out),
        }
    }
}

/// The verdict on a chain that is expected to hold `expected` steps.
pub open spec fn verify_spec(p: ProofState, shape: Shape, expected: nat) -> Result<(), VerificationError> {
    if p.i != expected {
        Err(VerificationError::StepCountMismatch)
    } else if p.z_0.len() != shape.arity || p.z_i.len() != shape.arity {
        Err(VerificationError::ArityMismatch)
    } else {
        Ok(())
    }
}

/// The result of a step with the chain as a mathematical value.
pub open spec fn step_view(r: Result<NIVCProof, ProveError>) -> Result<ProofState, ProveError> {
    match r {
        Ok(p) => Ok(p@),
        Err(e) => Err(e),
    }
}

/// The result of a setup with the parameters as a mathematical value.
pub open spec fn setup_view(r: Result<PublicParams, SetupError>) -> Result<Shape, SetupError> {
    match r {
        Ok(p) => Ok(p@),
        Err(e) => Err(e),
    }
}

impl View for PublicParams {
    type V = Shape;

    closed spec fn view(&self) -> Shape {
        Shape { arity: self.arity as nat, num_circuits: self.num_circuits as nat }
    }
}

impl View for NIVCProof {
    type V = ProofState;

    closed spec fn view(&self) -> ProofState {
        ProofState { i: self.i as nat, z_0: self.z_0@, z_i: self.z_i@, last_pc: self.last_pc }
    }
}

impl PublicParams {
    /// The length of the state.
    pub fn arity(&self) -> (n: usize)
        ensures
            n == self@.arity,
    {
        self.arity
    }

    /// The number of variants.
    pub fn num_circuits(&self) -> (n: usize)
        ensures
            n == self@.num_circuits,
    {
        self.num_circuits
    }

    /// The variant that `selector` names.
    pub fn select(&self, selector: &Scalar) -> (r: Result<u64, ProveError>)
        ensures
            r == select_spec(self@, *selector),
    {
        match selector.to_u64() {
            Some(pc) => {
                if pc < self.num_circuits as u64 {
                    Ok(pc)
                } else {
                    Err(ProveError::SelectorOutOfRange)
                }
            },
            None => Err(ProveError::SelectorOutOfRange),
        }
    }

    /// Derives the parameters of a family that declares `arity` from what
    /// its variants, in order, answered on the placeholder state.
    pub fn from_outcomes(arity: usize, outcomes: &Vec<StepOutcome>) -> (r: Result<PublicParams, SetupError>)
        ensures
            setup_view(r) == setup_spec(arity as nat, outcomes@.map_values(|o: StepOutcome| outcome_view(o))),
    {
        let ghost views = outcomes@.map_values(|o: StepOutcome| outcome_view(o));
        if outcomes.len() == 0 {
            return Err(SetupError {  });
        }
        let mut pc: usize = 0;
        while pc < outcomes.len()
            invariant
                pc <= outcomes.len(),
                views == outcomes@.map_values(|o: StepOutcome| outcome_view(o)),
                forall|k: int| 0 <= k < pc ==> (#[trigger] views[k] matches Ok(next) && next.len() == arity),
            decreases outcomes.len() - pc,
        {
            let agrees = match &outcomes[pc] {
                Ok(next) => next.len() == arity,
                Err(_) => false,
            };
            if !agrees {
                assert(!(views[pc as int] matches Ok(next) && next.len() == arity));
                return Err(SetupError {  });
            }
            pc += 1;
        }
        Ok(PublicParams { arity, num_circuits: outcomes.len() })
    }

    /// Derives the parameters of `circuit`: runs each variant once on the
    /// placeholder state and holds its answer against the declared arity.
    pub fn setup<C: NonUniformCircuit>(circuit: &C) -> (r: Result<PublicParams, SetupError>)
        ensures
            setup_allowed(circuit, setup_view(r)),
    {
        let arity = circuit.arity();
        let n = circuit.num_circuits();
        let mut zeros: Vec<Scalar> = Vec::new();
        while zeros.len() < arity
            invariant
                zeros@.len() <= arity,
                zeros@ == placeholder(zeros@.len()),
            decreases arity - zeros.len(),
        {
            zeros.push(Scalar::zero());
            assert(zeros@ =~= placeholder(zeros@.len()));
        }
        let mut outcomes: Vec<StepOutcome> = Vec::new();
        while outcomes.len() < n
            invariant
                n == circuit.num_circuits_spec(),
                arity == circuit.arity_spec(),
                zeros@ == placeholder(arity as nat),
                outcomes@.len() <= n,
                forall|pc: int|
                    0 <= pc < outcomes@.len() ==> circuit.step_spec(
                        pc as u64,
                        zeros@,
                        outcome_view(#[trigger] outcomes@[pc]),
                    ),
            decreases n - outcomes.len(),
        {
            let out = circuit.generate_constraints(outcomes.len() as u64, zeros.as_slice());
            outcomes.push(out);
        }
        let r = PublicParams::from_outcomes(arity, &outcomes);
        proof {
            let views = outcomes@.map_values(|o: StepOutcome| outcome_view(o));
            assert forall|pc: int| 0 <= pc < views.len() implies circuit.step_spec(
                pc as u64,
                placeholder(circuit.arity_spec()),
                #[trigger] views[pc],
            ) by {
                assert(views[pc] == outcome_view(outcomes@[pc]));
            }
        }
        r
    }
}

impl NIVCProof {
    /// The chain that has taken no step from `z_0`.
    pub fn new(z_0: &[Scalar]) -> (p: NIVCProof)
        ensures
            p@ == fresh(z_0@),
    {
        NIVCProof { i: 0, z_0: slice_to_vec(z_0), z_i: slice_to_vec(z_0), last_pc: None }
    }

    /// The number of steps taken.
    pub fn step_count(&self) -> (i: usize)
        ensures
            i == self@.i,
    {
        self.i
    }

    /// The state before the first step.
    pub fn z_0(&self) -> (z: &[Scalar])
        ensures
            z@ == self@.z_0,
    {
        self.z_0.as_slice()
    }

    /// The state after the last step.
    pub fn z_i(&self) -> (z: &[Scalar])
        ensures
            z@ == self@.z_i,
    {
        self.z_i.as_slice()
    }

    /// The variant that ran last, if any step was taken.
    pub fn last_pc(&self) -> (pc: Option<u64>)
        ensures
            pc == self@.last_pc,
    {
        self.last_pc
    }

    /// The chain after variant `pc` answered `out` on the current state.
    pub fn advance(self, params: &PublicParams, pc: u64, out: StepOutcome) -> (r: Result<NIVCProof, ProveError>)
        requires
            self@.i < usize::MAX,
        ensures
            step_view(r) == advance_spec(self@, params@, pc, outcome_view(out)),
    {
        match out {
            Err(_) => Err(ProveError::SynthesisError),
            Ok(next) => {
                if next.len() != params.arity {
                    Err(ProveError::ShapeMismatch)
                } else {
                    Ok(NIVCProof { i: self.i + 1, z_0: self.z_0, z_i: next, last_pc: Some(pc) })
                }
            },
        }
    }

    /// Takes one step: reads the selector off the current state, runs the
    /// variant that it names, and records the state that the variant leaves.
    pub fn prove_step<C: NonUniformCircuit>(self, params: &PublicParams, circuit: &C) -> (r: Result<
        NIVCProof,
        ProveError,
    >)
        requires
            self@.i < usize::MAX,
        ensures
            step_allowed(self@, params@, circuit, step_view(r)),
    {
        if circuit.arity() != params.arity || circuit.num_circuits() != params.num_circuits {
            return Err(ProveError::ShapeMismatch);
        }
        if self.z_i.len() != params.arity {
            return Err(ProveError::ArityMismatch);
        }
        let selector = circuit.compute_selector(self.z_i.as_slice());
        match params.select(&selector) {
            Err(e) => Err(e),
            Ok(pc) => {
                let out = circuit.generate_constraints(pc, self.z_i.as_slice());
                let ghost before = self@;
                let ghost seen = outcome_view(out);
                let r = self.advance(params, pc, out);
                assert(circuit.step_spec(pc, before.z_i, seen) && step_view(r) == advance_spec(
                    before,
                    params@,
                    pc,
                    seen,
                ));
                r
            },
        }
    }

    /// Accepts the chain where it holds `expected` steps between states of
    /// the family's arity.
    pub fn verify(&self, params: &PublicParams, expected: usize) -> (r: Result<(), VerificationError>)
        ensures
            r == verify_spec(self@, params@, expected as nat),
    {
        if self.i != expected {
            Err(VerificationError::StepCountMismatch)
        } else if self.z_0.len() != params.arity || self.z_i.len() != params.arity {
            Err(VerificationError::ArityMismatch)
        } else {
            Ok(())
        }
    }
}

impl Clone for NIVCProof {
    fn clone(&self) -> (p: NIVCProof)
        ensures
            p@ == self@,
    {
        NIVCProof {
            i: self.i,
            z_0: slice_to_vec(self.z_0.as_slice()),
            z_i: slice_to_vec(self.z_i.as_slice()),
            last_pc: self.last_pc,
        }
    }
}

/// Whether `chain` lists the successive values of one chain that started
/// from `z_0` and took each of its steps with success.
pub open spec fn is_run<C: NonUniformCircuit>(
    circuit: &C,
    shape: Shape,
    z_0: Seq<Scalar>,
    chain: Seq<ProofState>,
) -> bool {
    &&& chain.len() > 0
    &&& chain[0] == fresh(z_0)
    &&& forall|k: int|
        0 <= k < chain.len() - 1 ==> step_allowed(chain[k], shape, circuit, Ok(#[trigger] chain[k + 1]))
}

/// Whether `circuit` meets its own constraints on the state `z`: its
/// selector names one of its variants, and that variant can only answer with
/// a state of the family's arity.
pub open spec fn sound_on<C: NonUniformCircuit>(circuit: &C, z: Seq<Scalar>) -> bool {
    &&& circuit.selector_spec(z).value() < circuit.num_circuits_spec()
    &&& circuit.selector_spec(z).value() <= u64::MAX
    &&& forall|out: Result<Seq<Scalar>, SynthesisError>| #[trigger]
        circuit.step_spec(circuit.selector_spec(z).value() as u64, z, out) ==> (out matches Ok(next)
            && next.len() == circuit.arity_spec())
}

/// Whether `circuit` meets its own constraints on every step: each variant,
/// on each state of the family's arity, can only answer with a state of that
/// arity whose selector names a variant.
pub open spec fn closed<C: NonUniformCircuit>(circuit: &C) -> bool {
    forall|pc: u64, z: Seq<Scalar>, out: Result<Seq<Scalar>, SynthesisError>|
        pc < circuit.num_circuits_spec() && z.len() == circuit.arity_spec() && #[trigger] circuit.step_spec(
            pc,
            z,
            out,
        ) ==> (out matches Ok(next) && next.len() == circuit.arity_spec() && select_spec(
            shape_of(circuit),
            circuit.selector_spec(next),
        ) is Ok)
}

/// A step from a state of the right length, on which the circuit meets its
/// own constraints, succeeds.
pub proof fn law_sound_step_succeeds<C: NonUniformCircuit>(
    circuit: &C,
    shape: Shape,
    p: ProofState,
    r: Result<ProofState, ProveError>,
)
    requires
        shape == shape_of(circuit),
        p.z_i.len() == shape.arity,
        sound_on(circuit, p.z_i),
        step_allowed(p, shape, circuit, r),
    ensures
        r is Ok,
{
}

/// Parameters that were derived for `circuit` hold the shape that it
/// declares, and a family without variants has none.
pub proof fn law_setup_shape<C: NonUniformCircuit>(circuit: &C, r: Result<Shape, SetupError>)
    requires
        setup_allowed(circuit, r),
    ensures
        r matches Ok(shape) ==> shape == shape_of(circuit) && shape.num_circuits > 0,
        circuit.num_circuits_spec() == 0 ==> r is Err,
{
}

/// Every value of a run holds as many steps as were taken, starts from the
/// run's first state, and, once a step was taken, ends in a state of the
/// family's arity, reached by a variant of the family.
pub proof fn law_arity_invariant<C: NonUniformCircuit>(
    circuit: &C,
    shape: Shape,
    z_0: Seq<Scalar>,
    chain: Seq<ProofState>,
    k: int,
)
    requires
        is_run(circuit, shape, z_0, chain),
        0 <= k < chain.len(),
    ensures
        chain[k].i == k,
        chain[k].z_0 == z_0,
        k > 0 ==> chain[k].z_i.len() == shape.arity,
        k > 0 ==> z_0.len() == shape.arity,
        k > 0 ==> (chain[k].last_pc matches Some(pc) && pc < shape.num_circuits),
    decreases k,
{
    if k > 0 {
        law_arity_invariant(circuit, shape, z_0, chain, k - 1);
        assert(step_allowed(chain[k - 1], shape, circuit, Ok(chain[k - 1 + 1])));
    }
}

/// A run of `n` successful steps from a state of the family's arity is
/// accepted as a chain of `n` steps.
pub proof fn law_completeness<C: NonUniformCircuit>(
    circuit: &C,
    shape: Shape,
    z_0: Seq<Scalar>,
    chain: Seq<ProofState>,
)
    requires
        is_run(circuit, shape, z_0, chain),
        z_0.len() == shape.arity,
    ensures
        verify_spec(chain.last(), shape, (chain.len() - 1) as nat) == Ok::<(), VerificationError>(()),
{
    law_arity_invariant(circuit, shape, z_0, chain, chain.len() - 1);
}

/// Once a step was taken in a run of a circuit that meets its own constraints
/// on every step, the selector of the state reached names a variant.
pub proof fn law_closed_selector_in_range<C: NonUniformCircuit>(
    circuit: &C,
    z_0: Seq<Scalar>,
    chain: Seq<ProofState>,
    k: int,
)
    requires
        closed(circuit),
        is_run(circuit, shape_of(circuit), z_0, chain),
        0 < k < chain.len(),
    ensures
        select_spec(shape_of(circuit), circuit.selector_spec(chain[k].z_i)) is Ok,
{
    law_arity_invariant(circuit, shape_of(circuit), z_0, chain, k - 1);
    assert(step_allowed(chain[k - 1], shape_of(circuit), circuit, Ok(chain[k - 1 + 1])));
}

/// A circuit that meets its own constraints on every step never has a step
/// refused: from a first state of the family's arity whose selector names a
/// variant, every run can be taken one step further, and only with success.
pub proof fn law_closed_run_never_fails<C: NonUniformCircuit>(
    circuit: &C,
    z_0: Seq<Scalar>,
    chain: Seq<ProofState>,
    r: Result<ProofState, ProveError>,
)
    requires
        closed(circuit),
        z_0.len() == circuit.arity_spec(),
        select_spec(shape_of(circuit), circuit.selector_spec(z_0)) is Ok,
        is_run(circuit, shape_of(circuit), z_0, chain),
        step_allowed(chain.last(), shape_of(circuit), circuit, r),
    ensures
        r is Ok,
{
    let last = chain.len() - 1;
    law_arity_invariant(circuit, shape_of(circuit), z_0, chain, last);
    if last > 0 {
        law_closed_selector_in_range(circuit, z_0, chain, last);
    }
}

/// A step from a state that is not as long as the family's arity is refused
/// with `ArityMismatch`, whatever the state holds and before any variant
/// runs: the state is neither cut nor padded to fit.
pub proof fn law_wrong_state_length_refused<C: NonUniformCircuit>(
    circuit: &C,
    p: ProofState,
    r: Result<ProofState, ProveError>,
)
    requires
        p.z_i.len() != circuit.arity_spec(),
        step_allowed(p, shape_of(circuit), circuit, r),
    ensures
        r == Err::<ProofState, ProveError>(ProveError::ArityMismatch),
{
}

/// An output that is not as long as the family's arity is refused, whatever
/// it holds: no step shortens or pads it.
pub proof fn law_wrong_arity_refused(p: ProofState, shape: Shape, pc: u64, next: Seq<Scalar>)
    requires
        next.len() != shape.arity,
    ensures
        advance_spec(p, shape, pc, Ok(next)) == Err::<ProofState, ProveError>(ProveError::ShapeMismatch),
{
}

/// A selector that names no variant makes the step fail with
/// `SelectorOutOfRange`, and a step that succeeds ran a variant of the
/// family.
pub proof fn law_selector_bound<C: NonUniformCircuit>(
    circuit: &C,
    shape: Shape,
    p: ProofState,
    r: Result<ProofState, ProveError>,
)
    requires
        shape == shape_of(circuit),
        p.z_i.len() == shape.arity,
        step_allowed(p, shape, circuit, r),
    ensures
        circuit.selector_spec(p.z_i).value() >= shape.num_circuits ==> r == Err::<ProofState, ProveError>(
            ProveError::SelectorOutOfRange,
        ),
        r matches Ok(q) ==> q.last_pc == Some(circuit.selector_spec(p.z_i).value() as u64)
            && circuit.selector_spec(p.z_i).value() < shape.num_circuits,
{
}

/// A chain is refused with `StepCountMismatch` whenever it is held against a
/// number of steps other than its own.
pub proof fn law_step_count_exact(p: ProofState, shape: Shape, k: nat)
    requires
        k != p.i,
    ensures
        verify_spec(p, shape, k) == Err::<(), VerificationError>(VerificationError::StepCountMismatch),
{
}

/// A step that succeeds adds one to the count of steps, keeps the first
/// state, and leaves the state that the variant answered with, as it is.
pub proof fn law_step_advances_by_one(
    p: ProofState,
    shape: Shape,
    pc: u64,
    out: Result<Seq<Scalar>, SynthesisError>,
)
    ensures
        advance_spec(p, shape, pc, out) matches Ok(q) ==> q.i == p.i + 1 && q.z_0 == p.z_0 && out == Ok::<
            Seq<Scalar>,
            SynthesisError,
        >(q.z_i),
{
}

} // verus!
