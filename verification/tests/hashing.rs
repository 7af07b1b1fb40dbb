use ark_crypto_primitives::sponge::constraints::CryptographicSpongeVar;
use ark_crypto_primitives::sponge::poseidon::constraints::PoseidonSpongeVar;
use ark_crypto_primitives::sponge::poseidon::{find_poseidon_ark_and_mds, PoseidonSponge};
use ark_crypto_primitives::sponge::{CryptographicSponge, FieldBasedCryptographicSponge};
use ark_ff::PrimeField;
use ark_pallas::Fr;
use ark_r1cs_std::fields::fp::FpVar;
use ark_r1cs_std::R1CSVar;
use ark_relations::r1cs::ConstraintSystemRef;
use ff::PrimeField as _;
use generic_array::typenum::U1;
use neptune::poseidon::PoseidonConstants;
use neptune::Poseidon;
use nivc_steps::circuit::{NonUniformCircuit, StepCircuit, SynthesisError};
use nivc_steps::field::Scalar;
use nivc_steps::nivc::{NIVCProof, PublicParams};
use nivc_steps::novas::nexus_super::arity_tree::{
    branch_digest, extension_digest, leaf_digest, rand_poseidon, SuperCircuit,
};
use nivc_steps::novas::nexus_super::poseidon::TestCircuit;
use nivc_steps::sponge::PoseidonConfig;
use nova_snark::provider::PallasEngine;
use nova_snark::traits::Engine;

type Fq = <PallasEngine as Engine>::Scalar;

const FULL_ROUNDS: usize = 8;
const PARTIAL_ROUNDS: usize = 57;
const RATE: usize = 2;

fn scalar_of(x: &Fr) -> Scalar {
    Scalar::from_limbs(x.into_bigint().0).unwrap()
}

fn rows(m: &[Vec<Fr>]) -> Vec<Vec<Scalar>> {
    m.iter().map(|row| row.iter().map(scalar_of).collect()).collect()
}

fn constants() -> (Vec<Vec<Fr>>, Vec<Vec<Fr>>) {
    find_poseidon_ark_and_mds::<Fr>(255, RATE, FULL_ROUNDS as u64, PARTIAL_ROUNDS as u64, 0)
}

fn config() -> PoseidonConfig {
    let (ark, mds) = constants();
    PoseidonConfig::new(FULL_ROUNDS, PARTIAL_ROUNDS, 5, rows(&mds), rows(&ark), RATE, 1).unwrap()
}

fn ark_config() -> ark_crypto_primitives::sponge::poseidon::PoseidonConfig<Fr> {
    let (ark, mds) = constants();
    ark_crypto_primitives::sponge::poseidon::PoseidonConfig::new(
        FULL_ROUNDS,
        PARTIAL_ROUNDS,
        5,
        mds,
        ark,
        RATE,
        1,
    )
}

fn native_digest(inputs: &[Fr]) -> Scalar {
    let cfg = ark_config();
    let mut sponge = PoseidonSponge::<Fr>::new(&cfg);
    for x in inputs {
        sponge.absorb(x);
    }
    scalar_of(&sponge.squeeze_native_field_elements(1)[0])
}

#[test]
fn config_is_accepted_where_the_sponge_can_run() {
    let c = config();
    c.well_formed();
    assert_eq!(c, config());
}

#[test]
fn config_without_rate_is_refused() {
    let row = vec![Scalar::from_u64(1)];
    assert_eq!(PoseidonConfig::new(1, 0, 5, vec![row.clone()], vec![row], 0, 1), None);
}

#[test]
fn config_with_too_few_round_keys_is_refused() {
    let row = vec![Scalar::from_u64(1), Scalar::from_u64(2)];
    let mds = vec![row.clone(), row.clone()];
    assert_eq!(PoseidonConfig::new(2, 1, 5, mds.clone(), vec![row.clone(), row.clone()], 1, 1), None);
    assert!(PoseidonConfig::new(2, 1, 5, mds, vec![row.clone(), row.clone(), row], 1, 1).is_some());
}

#[test]
fn config_with_a_short_row_is_refused() {
    let row = vec![Scalar::from_u64(1), Scalar::from_u64(2)];
    let short = vec![Scalar::from_u64(1)];
    let mds = vec![row.clone(), row.clone()];
    assert_eq!(PoseidonConfig::new(1, 0, 5, mds.clone(), vec![short.clone()], 1, 1), None);
    assert_eq!(PoseidonConfig::new(1, 0, 5, vec![row.clone(), short], vec![row.clone()], 1, 1), None);
    assert_eq!(PoseidonConfig::new(1, 0, 5, vec![row.clone()], vec![row], 1, 1), None);
}

#[test]
fn config_with_overflowing_sizes_is_refused() {
    let row = vec![Scalar::from_u64(1), Scalar::from_u64(2)];
    let mds = vec![row.clone(), row.clone()];
    assert_eq!(PoseidonConfig::new(1, 0, 5, mds.clone(), vec![row.clone()], 2, usize::MAX), None);
    assert_eq!(PoseidonConfig::new(usize::MAX, 2, 5, mds, vec![row], 1, 1), None);
}

#[test]
fn hash_step_gives_the_digest_of_the_state() {
    let circuit = TestCircuit(config());
    assert_eq!(circuit.arity(), 1);
    assert_eq!(circuit.num_circuits(), 1);
    assert_eq!(circuit.compute_selector(&[Scalar::from_u64(9)]), Scalar::from_u64(0));
    let next = circuit.generate_constraints(0, &[Scalar::from_u64(9)]).unwrap();
    assert_eq!(next, vec![native_digest(&[Fr::from(9u64)])]);
    assert_ne!(next, vec![Scalar::from_u64(9)]);
}

#[test]
fn hash_steps_chain() {
    let circuit = TestCircuit(config());
    let params = PublicParams::setup(&circuit).unwrap();
    let mut proof = NIVCProof::new(&[Scalar::from_u64(0)]);
    let mut expected = Fr::from(0u64);
    for _ in 0..3 {
        proof = proof.prove_step(&params, &circuit).unwrap();
        let digest = native_digest(&[expected]);
        assert_eq!(proof.z_i(), &[digest][..]);
        expected = Fr::from_bigint(ark_ff::BigInt::new(digest.limbs())).unwrap();
    }
    assert_eq!(proof.verify(&params, 3), Ok(()));
}

#[test]
fn hash_next_state_holds_the_digest() {
    assert_eq!(TestCircuit::next_state(Scalar::from_u64(3)), Ok(vec![Scalar::from_u64(3)]));
}

#[test]
fn hash_step_agrees_with_the_sponge_in_circuit() {
    let mut gadget = PoseidonSpongeVar::<Fr>::new(ConstraintSystemRef::None, &ark_config());
    gadget.absorb(&FpVar::Constant(Fr::from(41u64))).unwrap();
    let squeezed = gadget.squeeze_field_elements(1).unwrap();
    let in_circuit = scalar_of(&squeezed[0].value().unwrap());
    let circuit = TestCircuit(config());
    let next = circuit.generate_constraints(0, &[Scalar::from_u64(41)]).unwrap();
    assert_eq!(next, vec![in_circuit]);
}

#[test]
fn digest_of_many_inputs_agrees_with_absorbing_one_by_one() {
    let inputs: Vec<u64> = (1..=30).collect();
    let frs: Vec<Fr> = inputs.iter().map(|v| Fr::from(*v)).collect();
    let expected = native_digest(&frs);
    let scalars: Vec<Scalar> = inputs.iter().map(|v| Scalar::from_u64(*v)).collect();
    assert_eq!(rand_poseidon(&config(), scalars), expected);
    let mut gadget = PoseidonSpongeVar::<Fr>::new(ConstraintSystemRef::None, &ark_config());
    for x in &frs {
        gadget.absorb(&FpVar::Constant(*x)).unwrap();
    }
    let squeezed = gadget.squeeze_field_elements(1).unwrap();
    assert_eq!(scalar_of(&squeezed[0].value().unwrap()), expected);
}

#[test]
fn digest_of_no_input_is_the_first_squeeze() {
    assert_eq!(rand_poseidon(&config(), vec![]), native_digest(&[]));
}

#[test]
fn digest_depends_on_the_order_of_the_inputs() {
    let a = rand_poseidon(&config(), vec![Scalar::from_u64(1), Scalar::from_u64(2)]);
    let b = rand_poseidon(&config(), vec![Scalar::from_u64(2), Scalar::from_u64(1)]);
    assert_ne!(a, b);
    assert_eq!(a, native_digest(&[Fr::from(1u64), Fr::from(2u64)]));
}

#[test]
fn leaf_digest_hashes_the_bytes_in_order() {
    let mut bytes = [0u8; 30];
    for (k, b) in bytes.iter_mut().enumerate() {
        *b = (7 * k + 3) as u8;
    }
    bytes[29] = 255;
    let frs: Vec<Fr> = bytes.iter().map(|b| Fr::from(*b)).collect();
    assert_eq!(leaf_digest(&config(), &bytes), native_digest(&frs));
    let zeros = [0u8; 30];
    assert_ne!(leaf_digest(&config(), &bytes), leaf_digest(&config(), &zeros));
    let mut swapped = bytes;
    swapped.swap(0, 1);
    assert_ne!(leaf_digest(&config(), &bytes), leaf_digest(&config(), &swapped));
}

#[test]
fn branch_digest_hashes_the_words_in_order() {
    let mut words = [0u64; 20];
    for (k, w) in words.iter_mut().enumerate() {
        *w = u64::MAX - (k as u64) * 1_000_003;
    }
    let frs: Vec<Fr> = words.iter().map(|w| Fr::from(*w)).collect();
    assert_eq!(branch_digest(&config(), &words), native_digest(&frs));
    let mut swapped = words;
    swapped.swap(18, 19);
    assert_ne!(branch_digest(&config(), &words), branch_digest(&config(), &swapped));
}

#[test]
fn extension_digest_hashes_the_words_in_order() {
    let mut words = [0u64; 10];
    for (k, w) in words.iter_mut().enumerate() {
        *w = (k as u64 + 1) << 40;
    }
    let frs: Vec<Fr> = words.iter().map(|w| Fr::from(*w)).collect();
    assert_eq!(extension_digest(&config(), &words), native_digest(&frs));
    let zeros = [0u64; 10];
    assert_ne!(extension_digest(&config(), &words), extension_digest(&config(), &zeros));
}

#[test]
fn tree_step_is_fixed_once_the_draws_are() {
    let bytes = [9u8; 30];
    let first = SuperCircuit::next_state(2, leaf_digest(&config(), &bytes));
    let second = SuperCircuit::next_state(2, leaf_digest(&config(), &bytes));
    assert_eq!(first, second);
    assert_eq!(first.unwrap()[0], Scalar::from_u64(2));
}

#[test]
fn tree_shape() {
    let circuit = SuperCircuit(config());
    assert_eq!(circuit.arity(), 2);
    assert_eq!(circuit.num_circuits(), 3);
    let z = vec![Scalar::from_u64(2), Scalar::from_u64(7)];
    assert_eq!(circuit.compute_selector(&z), Scalar::from_u64(2));
}

#[test]
fn tree_step_draws_a_branch_or_an_extension() {
    let circuit = SuperCircuit(config());
    let z = vec![Scalar::from_u64(0), Scalar::from_u64(0)];
    for pc in 0..3 {
        for _ in 0..8 {
            let next = circuit.generate_constraints(pc, &z).unwrap();
            assert_eq!(next.len(), 2);
            assert!(next[0] == Scalar::from_u64(1) || next[0] == Scalar::from_u64(2));
        }
    }
}

#[test]
fn tree_next_state_holds_selector_and_digest() {
    let d = Scalar::from_u64(77);
    assert_eq!(SuperCircuit::next_state(2, d), Ok(vec![Scalar::from_u64(2), d]));
    assert_eq!(SuperCircuit::next_state(1, d), Ok(vec![Scalar::from_u64(1), d]));
}

#[test]
fn tree_steps_chain() {
    let circuit = SuperCircuit(config());
    let params = PublicParams::setup(&circuit).unwrap();
    let mut proof = NIVCProof::new(&[Scalar::from_u64(0), Scalar::from_u64(0)]);
    proof = proof.prove_step(&params, &circuit).unwrap();
    assert_eq!(proof.last_pc(), Some(0));
    for _ in 0..10 {
        let pc = proof.z_i()[0].to_u64().unwrap();
        proof = proof.prove_step(&params, &circuit).unwrap();
        assert_eq!(proof.last_pc(), Some(pc));
        assert!(pc == 1 || pc == 2);
    }
    assert_eq!(proof.verify(&params, 11), Ok(()));
}

#[test]
fn uniform_hash_step_gives_the_hash_of_the_state() {
    let circuit = nivc_steps::novas::ms::TestCircuit::new();
    assert_eq!(circuit.arity(), 1);
    let next = circuit.synthesize(&[Scalar::from_u64(5)]).unwrap();
    let constants = PoseidonConstants::<Fq, U1>::new();
    let native = Poseidon::new_with_preimage(&[Fq::from(5u64)], &constants).hash();
    assert_eq!(next, vec![Scalar::from_bytes_le(&native.to_repr()).unwrap()]);
    assert_ne!(next, vec![Scalar::from_u64(5)]);
}

#[test]
fn uniform_hash_step_of_a_failed_circuit_is_an_error() {
    assert_eq!(nivc_steps::novas::ms::TestCircuit::next_state(None), Err(SynthesisError {}));
    assert_eq!(
        nivc_steps::novas::ms::TestCircuit::next_state(Some(Scalar::from_u64(3))),
        Ok(vec![Scalar::from_u64(3)])
    );
}
