//! A family of three circuits that stand for the nodes of a tree of mixed
//! arity: a leaf, a branch and an extension. Each hashes as many random
//! inputs as its kind of node takes and draws the kind of the next node.

use crate::circuit::{NonUniformCircuit, StepOutcome, SynthesisError};
use crate::field::{lemma_from_u64_value, Scalar};
use crate::nivc::closed;
use crate::sponge::{sponge_digest, sponge_hash, PoseidonConfig};
use rand::{thread_rng, Rng};
use vstd::prelude::*;

verus! {

/// The number of inputs that a leaf hashes.
pub const LEAF_INPUTS: usize = 30;

/// The number of inputs that a branch hashes.
pub const BRANCH_INPUTS: usize = 20;

/// The number of inputs that an extension hashes.
pub const EXTENSION_INPUTS: usize = 10;

/// The family, with the configuration of the sponge that it hashes with.
/// Variant 0 is the leaf, 1 the branch, 2 the extension.
#[derive(Debug)]
pub struct SuperCircuit(pub PoseidonConfig);

/// Whether variant `pc` may hash `inputs`: a leaf hashes 30 bytes, a branch
/// 20 and an extension 10 words of 64 bits.
pub open spec fn node_inputs(pc: u64, inputs: Seq<Scalar>) -> bool {
    if pc == 0 {
        &&& inputs.len() == LEAF_INPUTS
        &&& forall|k: int| 0 <= k < inputs.len() ==> (#[trigger] inputs[k]).value() <= u8::MAX
    } else {
        &&& inputs.len() == (if pc == 1 { BRANCH_INPUTS } else { EXTENSION_INPUTS })
        &&& forall|k: int| 0 <= k < inputs.len() ==> (#[trigger] inputs[k]).value() <= u64::MAX
    }
}

/// Thirty random bytes: `Rng::gen` of `rand` on the thread's generator.
#[verifier::external_body]
fn random_leaf_inputs() -> [u8; 30] {
    thread_rng().gen::<[u8; 30]>()
}

/// Twenty random words: `Rng::gen` of `rand` on the thread's generator.
#[verifier::external_body]
fn random_branch_inputs() -> [u64; 20] {
    thread_rng().gen::<[u64; 20]>()
}

/// Ten random words: `Rng::gen` of `rand` on the thread's generator.
#[verifier::external_body]
fn random_extension_inputs() -> [u64; 10] {
    thread_rng().gen::<[u64; 10]>()
}

/// The kind of the next node, drawn by `Rng::gen_range` of `rand` on the
/// thread's generator from the range `1..=2`: whatever is drawn, it is a
/// value of that range.
#[verifier::external_body]
fn random_selector() -> (s: u8)
    ensures
        1 <= s <= 2,
{
    thread_rng().gen_range(1..=2)
}

/// The digest of `vars` under `params`.
pub fn rand_poseidon(params: &PoseidonConfig, vars: Vec<Scalar>) -> (d: Scalar)
    ensures
        d == sponge_digest(params@, vars@),
{
    sponge_hash(params, vars.as_slice())
}

/// The bytes drawn for a leaf as field elements, in the order drawn.
pub open spec fn leaf_values(bytes: Seq<u8>) -> Seq<Scalar> {
    Seq::new(bytes.len(), |k: int| Scalar::spec_from_u64(bytes[k] as u64))
}

/// The words drawn for a branch or an extension as field elements, in the
/// order drawn.
pub open spec fn word_values(words: Seq<u64>) -> Seq<Scalar> {
    Seq::new(words.len(), |k: int| Scalar::spec_from_u64(words[k]))
}

/// Every byte stands for a field element of at most 255.
pub proof fn lemma_leaf_values_small(bytes: Seq<u8>)
    ensures
        leaf_values(bytes).len() == bytes.len(),
        forall|k: int| 0 <= k < bytes.len() ==> (#[trigger] leaf_values(bytes)[k]).value() == bytes[k],
{
    assert forall|k: int| 0 <= k < bytes.len() implies (#[trigger] leaf_values(bytes)[k]).value()
        == bytes[k] by {
        lemma_from_u64_value(bytes[k] as u64);
    }
}

/// Every word stands for the field element of its own value.
pub proof fn lemma_word_values_small(words: Seq<u64>)
    ensures
        word_values(words).len() == words.len(),
        forall|k: int| 0 <= k < words.len() ==> (#[trigger] word_values(words)[k]).value() == words[k],
{
    assert forall|k: int| 0 <= k < words.len() implies (#[trigger] word_values(words)[k]).value()
        == words[k] by {
        lemma_from_u64_value(words[k]);
    }
}

/// The bytes as field elements, in order.
fn bytes_to_scalars(bytes: &[u8]) -> (vars: Vec<Scalar>)
    ensures
        vars@ == leaf_values(bytes@),
{
    let mut vars: Vec<Scalar> = Vec::new();
    let mut k: usize = 0;
    while k < bytes.len()
        invariant
            k <= bytes@.len(),
            vars@.len() == k,
            forall|j: int| 0 <= j < k ==> vars@[j] == Scalar::spec_from_u64(bytes@[j] as u64),
        decreases bytes@.len() - k,
    {
        vars.push(Scalar::from_u64(bytes[k] as u64));
        k += 1;
    }
    assert(vars@ =~= leaf_values(bytes@));
    vars
}

/// The words as field elements, in order.
fn words_to_scalars(words: &[u64]) -> (vars: Vec<Scalar>)
    ensures
        vars@ == word_values(words@),
{
    let mut vars: Vec<Scalar> = Vec::new();
    let mut k: usize = 0;
    while k < words.len()
        invariant
            k <= words@.len(),
            vars@.len() == k,
            forall|j: int| 0 <= j < k ==> vars@[j] == Scalar::spec_from_u64(words@[j]),
        decreases words@.len() - k,
    {
        vars.push(Scalar::from_u64(words[k]));
        k += 1;
    }
    assert(vars@ =~= word_values(words@));
    vars
}

/// What a leaf leaves in the state once its thirty bytes are drawn: the
/// digest of the bytes as field elements, in the order drawn.
pub fn leaf_digest(params: &PoseidonConfig, bytes: &[u8; 30]) -> (d: Scalar)
    ensures
        d == sponge_digest(params@, leaf_values(bytes@)),
        node_inputs(0, leaf_values(bytes@)),
{
    proof {
        lemma_leaf_values_small(bytes@);
    }
    rand_poseidon(params, bytes_to_scalars(bytes.as_slice()))
}

/// What a branch leaves in the state once its twenty words are drawn: the
/// digest of the words as field elements, in the order drawn.
pub fn branch_digest(params: &PoseidonConfig, words: &[u64; 20]) -> (d: Scalar)
    ensures
        d == sponge_digest(params@, word_values(words@)),
        node_inputs(1, word_values(words@)),
{
    proof {
        lemma_word_values_small(words@);
    }
    rand_poseidon(params, words_to_scalars(words.as_slice()))
}

/// What an extension leaves in the state once its ten words are drawn: the
/// digest of the words as field elements, in the order drawn.
pub fn extension_digest(params: &PoseidonConfig, words: &[u64; 10]) -> (d: Scalar)
    ensures
        d == sponge_digest(params@, word_values(words@)),
        node_inputs(2, word_values(words@)),
{
    proof {
        lemma_word_values_small(words@);
    }
    rand_poseidon(params, words_to_scalars(words.as_slice()))
}

struct Leaf {}

impl Leaf {
    fn generate_constraints(params: &PoseidonConfig) -> (d: Scalar)
        ensures
            exists|inputs: Seq<Scalar>|
                node_inputs(0, inputs) && d == #[trigger] sponge_digest(params@, inputs),
    {
        let bytes = random_leaf_inputs();
        leaf_digest(params, &bytes)
    }
}

struct Branch {}

impl Branch {
    fn generate_constraints(params: &PoseidonConfig) -> (d: Scalar)
        ensures
            exists|inputs: Seq<Scalar>|
                node_inputs(1, inputs) && d == #[trigger] sponge_digest(params@, inputs),
    {
        let words = random_branch_inputs();
        branch_digest(params, &words)
    }
}

struct Extension {}

impl Extension {
    fn generate_constraints(params: &PoseidonConfig) -> (d: Scalar)
        ensures
            exists|inputs: Seq<Scalar>|
                node_inputs(2, inputs) && d == #[trigger] sponge_digest(params@, inputs),
    {
        let words = random_extension_inputs();
        extension_digest(params, &words)
    }
}

impl SuperCircuit {
    /// The state that a step leaves, given the kind drawn for the next node
    /// and the digest of the node's inputs.
    pub fn next_state(selector: u8, digest: Scalar) -> (out: StepOutcome)
        ensures
            out matches Ok(next) && next@ == seq![Scalar::spec_from_u64(selector as u64), digest],
    {
        let mut next: Vec<Scalar> = Vec::new();
        next.push(Scalar::from_u64(selector as u64));
        next.push(digest);
        Ok(next)
    }
}

impl NonUniformCircuit for SuperCircuit {
    open spec fn arity_spec(&self) -> nat {
        2
    }

    open spec fn num_circuits_spec(&self) -> nat {
        3
    }

    open spec fn selector_spec(&self, z: Seq<Scalar>) -> Scalar {
        z[0]
    }

    open spec fn step_spec(&self, pc: u64, z: Seq<Scalar>, out: Result<Seq<Scalar>, SynthesisError>) -> bool {
        &&& out matches Ok(next)
        &&& next.len() == 2
        &&& next[0] == Scalar::spec_from_u64(1) || next[0] == Scalar::spec_from_u64(2)
        &&& exists|inputs: Seq<Scalar>|
            node_inputs(pc, inputs) && next[1] == #[trigger] sponge_digest(self.0@, inputs)
    }

    fn arity(&self) -> (n: usize) {
        2
    }

    fn num_circuits(&self) -> (n: usize) {
        3
    }

    fn compute_selector(&self, z: &[Scalar]) -> (pc: Scalar) {
        z[0]
    }

    fn generate_constraints(&self, pc: u64, z: &[Scalar]) -> (out: StepOutcome) {
        let result = if pc == 0 {
            Leaf::generate_constraints(&self.0)
        } else if pc == 1 {
            Branch::generate_constraints(&self.0)
        } else {
            Extension::generate_constraints(&self.0)
        };
        let selector = random_selector();
        SuperCircuit::next_state(selector, result)
    }
}

/// The family of tree nodes meets its own constraints on every step: each
/// step leaves two elements, the first of which names the branch or the
/// extension.
pub proof fn law_tree_closed(circuit: &SuperCircuit)
    ensures
        closed(circuit),
{
    lemma_from_u64_value(1);
    lemma_from_u64_value(2);
}

} // verus!
