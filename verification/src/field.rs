//! Elements of the scalar field of the Pallas curve, held as four 64-bit limbs.

use ark_ff::{BigInt, PrimeField};
use ark_pallas::Fr;
use vstd::prelude::*;

verus! {

/// The order of the scalar field of the Pallas curve.
pub open spec fn modulus() -> nat {
    0x40000000000000000000000000000000224698fc0994a8dd8c46eb2100000001nat
}

/// The number that four little-endian 64-bit limbs stand for.
pub open spec fn limbs_value(l0: u64, l1: u64, l2: u64, l3: u64) -> nat {
    (l0 as nat) + (l1 as nat) * 0x1_0000_0000_0000_0000nat + (l2 as nat)
        * 0x1_0000_0000_0000_0000_0000_0000_0000_0000nat + (l3 as nat)
        * 0x1_0000_0000_0000_0000_0000_0000_0000_0000_0000_0000_0000_0000nat
}

/// The number that the eight bytes of `b` from index `at` on stand for, least
/// significant byte first.
pub open spec fn le_word(b: Seq<u8>, at: int) -> nat {
    (b[at] as nat) + (b[at + 1] as nat) * 0x100 + (b[at + 2] as nat) * 0x1_0000 + (b[at + 3] as nat)
        * 0x100_0000 + (b[at + 4] as nat) * 0x1_0000_0000 + (b[at + 5] as nat) * 0x100_0000_0000 + (b[at
        + 6] as nat) * 0x1_0000_0000_0000 + (b[at + 7] as nat) * 0x100_0000_0000_0000
}

/// The number that 32 bytes stand for, least significant byte first.
pub open spec fn le_value(b: Seq<u8>) -> nat {
    le_word(b, 0) + le_word(b, 8) * 0x1_0000_0000_0000_0000nat + le_word(b, 16)
        * 0x1_0000_0000_0000_0000_0000_0000_0000_0000nat + le_word(b, 24)
        * 0x1_0000_0000_0000_0000_0000_0000_0000_0000_0000_0000_0000_0000nat
}

/// The eight bytes of `b` from index `at` on as one integer, least
/// significant byte first.
fn word_at(b: &[u8; 32], at: usize) -> (w: u64)
    requires
        at + 8 <= 32,
    ensures
        w == le_word(b@, at as int),
{
    (b[at] as u64) + (b[at + 1] as u64) * 0x100 + (b[at + 2] as u64) * 0x1_0000 + (b[at + 3] as u64)
        * 0x100_0000 + (b[at + 4] as u64) * 0x1_0000_0000 + (b[at + 5] as u64) * 0x100_0000_0000 + (b[at
        + 6] as u64) * 0x1_0000_0000_0000 + (b[at + 7] as u64) * 0x100_0000_0000_0000
}

/// A field element as its least non-negative representative, least
/// significant limb first.
#[derive(Clone, Copy, Debug, PartialEq, Eq, Structural)]
pub struct Scalar {
    l0: u64,
    l1: u64,
    l2: u64,
    l3: u64,
}

impl Scalar {
    /// The integer that the limbs stand for.
    pub closed spec fn value(&self) -> nat {
        limbs_value(self.l0, self.l1, self.l2, self.l3)
    }

    /// Every element that executable code holds is below the modulus.
    #[verifier::type_invariant]
    pub closed spec fn canonical(&self) -> bool {
        self.value() < modulus()
    }

    /// States what the type guarantees of `self`.
    pub fn bounded(&self)
        ensures
            self.value() < modulus(),
    {
        proof {
            use_type_invariant(self);
        }
    }

    /// The field element that `n` stands for, in specifications.
    pub closed spec fn spec_from_u64(n: u64) -> Scalar {
        Scalar { l0: n, l1: 0, l2: 0, l3: 0 }
    }

    /// The field element that `n` stands for.
    #[verifier::when_used_as_spec(spec_from_u64)]
    pub fn from_u64(n: u64) -> (s: Scalar)
        ensures
            s == Scalar::spec_from_u64(n),
            s.value() == n,
    {
        Scalar { l0: n, l1: 0, l2: 0, l3: 0 }
    }

    /// The element with the given limbs, least significant first, where
    /// they stand for a number below the modulus.
    pub fn from_limbs(limbs: [u64; 4]) -> (r: Option<Scalar>)
        ensures
            r.is_some() == (limbs_value(limbs[0], limbs[1], limbs[2], limbs[3]) < modulus()),
            r matches Some(s) ==> s.value() == limbs_value(limbs[0], limbs[1], limbs[2], limbs[3]),
    {
        let l0 = limbs[0];
        let l1 = limbs[1];
        let l2 = limbs[2];
        let l3 = limbs[3];
        let below = if l3 != 0x4000000000000000 {
            l3 < 0x4000000000000000
        } else if l2 != 0 {
            false
        } else if l1 != 0x224698fc0994a8dd {
            l1 < 0x224698fc0994a8dd
        } else {
            l0 < 0x8c46eb2100000001
        };
        if below {
            Some(Scalar { l0, l1, l2, l3 })
        } else {
            None
        }
    }

    /// The element that 32 bytes stand for, least significant byte first,
    /// where they stand for a number below the modulus.
    pub fn from_bytes_le(bytes: &[u8; 32]) -> (r: Option<Scalar>)
        ensures
            r.is_some() == (le_value(bytes@) < modulus()),
            r matches Some(s) ==> s.value() == le_value(bytes@),
    {
        let limbs = [word_at(bytes, 0), word_at(bytes, 8), word_at(bytes, 16), word_at(bytes, 24)];
        Scalar::from_limbs(limbs)
    }

    /// The limbs, least significant first.
    pub fn limbs(&self) -> (r: [u64; 4])
        ensures
            limbs_value(r[0], r[1], r[2], r[3]) == self.value(),
    {
        [self.l0, self.l1, self.l2, self.l3]
    }

    pub fn zero() -> (s: Scalar)
        ensures
            s == Scalar::spec_from_u64(0),
            s.value() == 0,
    {
        Scalar::from_u64(0)
    }

    pub fn one() -> (s: Scalar)
        ensures
            s == Scalar::spec_from_u64(1),
            s.value() == 1,
    {
        Scalar::from_u64(1)
    }

    pub fn is_zero(&self) -> (b: bool)
        ensures
            b == (self.value() == 0),
    {
        self.l0 == 0 && self.l1 == 0 && self.l2 == 0 && self.l3 == 0
    }

    /// The element as a 64-bit integer, where it is small enough.
    pub fn to_u64(&self) -> (r: Option<u64>)
        ensures
            r.is_some() == (self.value() <= u64::MAX),
            r matches Some(n) ==> n == self.value(),
    {
        if self.l1 == 0 && self.l2 == 0 && self.l3 == 0 {
            Some(self.l0)
        } else {
            None
        }
    }

    /// Whether two elements are the same.
    pub fn same(&self, other: &Scalar) -> (b: bool)
        ensures
            b == (self.value() == other.value()),
            b == (*self == *other),
    {
        self.l0 == other.l0 && self.l1 == other.l1 && self.l2 == other.l2 && self.l3 == other.l3
    }
}

/// Field addition as `ark_ff` implements it for `ark_pallas::Fr`: both
/// arguments go through `Fr::from` on their limbs, which accepts any
/// representative below the modulus, the sum is `+` of `Fr`, and
/// `into_bigint` hands back its representative below the modulus.
#[verifier::external_body]
pub(crate) fn fr_add(a: &Scalar, b: &Scalar) -> (s: Scalar)
    ensures
        s.value() == (a.value() + b.value()) % modulus(),
{
    let x = Fr::from(BigInt::new(a.limbs()));
    let y = Fr::from(BigInt::new(b.limbs()));
    let r = (x + y).into_bigint().0;
    Scalar { l0: r[0], l1: r[1], l2: r[2], l3: r[3] }
}

/// Field doubling as `ark_ff` implements it for `ark_pallas::Fr`
/// (`AdditiveGroup::double`): the argument goes through `Fr::from` on its
/// limbs, and `into_bigint` hands back the representative of twice the
/// element below the modulus.
#[verifier::external_body]
pub(crate) fn fr_double(a: &Scalar) -> (s: Scalar)
    ensures
        s.value() == (2 * a.value()) % modulus(),
{
    let x = Fr::from(BigInt::new(a.limbs()));
    let r = ark_ff::AdditiveGroup::double(&x).into_bigint().0;
    Scalar { l0: r[0], l1: r[1], l2: r[2], l3: r[3] }
}

/// The element that stands for `n` has the value `n`.
pub proof fn lemma_from_u64_value(n: u64)
    ensures
        Scalar::spec_from_u64(n).value() == n,
{
}

/// Two elements with the same value are the same element.
pub proof fn lemma_value_injective(a: Scalar, b: Scalar)
    requires
        a.value() == b.value(),
    ensures
        a == b,
{
    let base: int = 0x1_0000_0000_0000_0000;
    let d0: int = a.l0 - b.l0;
    let d1: int = a.l1 - b.l1;
    let d2: int = a.l2 - b.l2;
    let d3: int = a.l3 - b.l3;
    let k2: int = d2 + base * d3;
    let k1: int = d1 + base * k2;
    assert(d0 + base * k1 == 0);
    assert(k1 == 0);
    assert(k2 == 0);
}

} // verus!
