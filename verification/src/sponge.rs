//! The Poseidon sponge over the scalar field, as far as the step circuits
//! use it: a configuration that is checked once, and the digest of a list
//! of field elements under it.

use crate::field::Scalar;
use ark_crypto_primitives::sponge::poseidon::PoseidonConfig as ArkConfig;
use ark_crypto_primitives::sponge::poseidon::PoseidonSponge;
use ark_crypto_primitives::sponge::{CryptographicSponge, FieldBasedCryptographicSponge};
use ark_ff::{BigInt, PrimeField};
use ark_pallas::Fr;
use vstd::prelude::*;

verus! {

/// A sponge configuration as a mathematical value.
pub struct PoseidonShape {
    pub full_rounds: nat,
    pub partial_rounds: nat,
    pub alpha: u64,
    /// The round keys, one row for each round.
    pub ark: Seq<Seq<Scalar>>,
    /// The mixing matrix.
    pub mds: Seq<Seq<Scalar>>,
    pub rate: nat,
    pub capacity: nat,
}

impl PoseidonShape {
    /// The width of the sponge's state.
    pub open spec fn width(&self) -> nat {
        self.rate + self.capacity
    }

    /// The configuration is one that the sponge can run on: it takes in at
    /// least one element at a time, has a round key for every round and
    /// every entry of the state, and a square mixing matrix of the state's
    /// width.
    pub open spec fn wf(&self) -> bool {
        &&& self.rate >= 1
        &&& self.ark.len() == self.full_rounds + self.partial_rounds
        &&& forall|r: int| 0 <= r < self.ark.len() ==> (#[trigger] self.ark[r]).len() == self.width()
        &&& self.mds.len() == self.width()
        &&& forall|r: int| 0 <= r < self.mds.len() ==> (#[trigger] self.mds[r]).len() == self.width()
    }
}

/// The rows of a matrix as sequences.
pub open spec fn rows_view(m: Seq<Vec<Scalar>>) -> Seq<Seq<Scalar>> {
    m.map_values(|row: Vec<Scalar>| row@)
}

/// A configuration of the Poseidon sponge that the sponge can run on.
#[derive(Debug, PartialEq, Eq)]
pub struct PoseidonConfig {
    full_rounds: usize,
    partial_rounds: usize,
    alpha: u64,
    ark: Vec<Vec<Scalar>>,
    mds: Vec<Vec<Scalar>>,
    rate: usize,
    capacity: usize,
}

impl View for PoseidonConfig {
    type V = PoseidonShape;

    closed spec fn view(&self) -> PoseidonShape {
        PoseidonShape {
            full_rounds: self.full_rounds as nat,
            partial_rounds: self.partial_rounds as nat,
            alpha: self.alpha,
            ark: rows_view(self.ark@),
            mds: rows_view(self.mds@),
            rate: self.rate as nat,
            capacity: self.capacity as nat,
        }
    }
}

/// Whether every row of `m` holds `width` entries.
fn rows_have_width(m: &Vec<Vec<Scalar>>, width: usize) -> (b: bool)
    ensures
        b == (forall|r: int| 0 <= r < m@.len() ==> (#[trigger] rows_view(m@)[r]).len() == width),
{
    let mut r: usize = 0;
    while r < m.len()
        invariant
            r <= m@.len(),
            forall|k: int| 0 <= k < r ==> (#[trigger] rows_view(m@)[k]).len() == width,
        decreases m@.len() - r,
    {
        if m[r].len() != width {
            assert(rows_view(m@)[r as int].len() != width);
            return false;
        }
        r += 1;
    }
    true
}

impl PoseidonConfig {
    /// Every configuration that executable code holds is well formed.
    #[verifier::type_invariant]
    pub closed spec fn inv(&self) -> bool {
        self@.wf()
    }

    /// States what the type guarantees of `self`.
    pub fn well_formed(&self)
        ensures
            self@.wf(),
    {
        proof {
            use_type_invariant(self);
        }
    }

    /// The configuration with the given constants, where the sponge can run
    /// on it.
    pub fn new(
        full_rounds: usize,
        partial_rounds: usize,
        alpha: u64,
        mds: Vec<Vec<Scalar>>,
        ark: Vec<Vec<Scalar>>,
        rate: usize,
        capacity: usize,
    ) -> (r: Option<PoseidonConfig>)
        ensures
            r.is_some() == (PoseidonShape {
                full_rounds: full_rounds as nat,
                partial_rounds: partial_rounds as nat,
                alpha,
                ark: rows_view(ark@),
                mds: rows_view(mds@),
                rate: rate as nat,
                capacity: capacity as nat,
            }).wf(),
            r matches Some(c) ==> c@ == (PoseidonShape {
                full_rounds: full_rounds as nat,
                partial_rounds: partial_rounds as nat,
                alpha,
                ark: rows_view(ark@),
                mds: rows_view(mds@),
                rate: rate as nat,
                capacity: capacity as nat,
            }),
    {
        let rounds = ark.len();
        let side = mds.len();
        assert(rows_view(ark@).len() == rounds && rows_view(mds@).len() == side);
        if rate < 1 || capacity > usize::MAX - rate {
            return None;
        }
        let width = rate + capacity;
        if partial_rounds > usize::MAX - full_rounds || rounds != full_rounds + partial_rounds {
            return None;
        }
        if side != width {
            return None;
        }
        if !rows_have_width(&ark, width) || !rows_have_width(&mds, width) {
            return None;
        }
        Some(PoseidonConfig { full_rounds, partial_rounds, alpha, ark, mds, rate, capacity })
    }
}

/// The first element that the Poseidon sponge of `ark_crypto_primitives`
/// gives out under the configuration `config` once it has taken in `inputs`.
pub uninterp spec fn sponge_digest(config: PoseidonShape, inputs: Seq<Scalar>) -> Scalar;

/// Runs the Poseidon sponge of `ark_crypto_primitives` (`PoseidonSponge`
/// over `ark_pallas::Fr`): a sponge made by `new` for the given
/// configuration takes in `inputs` by one `absorb` and gives out one element
/// by `squeeze_native_field_elements(1)`. The result is that element, a
/// function of the configuration and the inputs alone. The configuration is
/// well formed by its type, so that `PoseidonConfig::new` of the outside
/// crate accepts it and the sponge stays within its state; `into_bigint`
/// hands back a representative below the modulus, which `from_limbs`
/// accepts.
#[verifier::external_body]
pub(crate) fn sponge_hash(config: &PoseidonConfig, inputs: &[Scalar]) -> (d: Scalar)
    ensures
        d == sponge_digest(config@, inputs@),
{
    let fr = |s: &Scalar| Fr::from(BigInt::new(s.limbs()));
    let rows = |m: &Vec<Vec<Scalar>>| m.iter().map(|r| r.iter().map(fr).collect()).collect();
    let cfg = ArkConfig::new(
        config.full_rounds, config.partial_rounds, config.alpha,
        rows(&config.mds), rows(&config.ark), config.rate, config.capacity,
    );
    let mut sponge = PoseidonSponge::new(&cfg);
    sponge.absorb(&inputs.iter().map(fr).collect::<Vec<_>>());
    Scalar::from_limbs(sponge.squeeze_native_field_elements(1)[0].into_bigint().0).unwrap()
}

} // verus!
