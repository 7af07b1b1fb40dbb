use nivc_steps::field::Scalar;

const MODULUS: [u64; 4] = [0x8c46eb2100000001, 0x224698fc0994a8dd, 0, 0x4000000000000000];

#[test]
fn from_u64_sets_the_low_limb() {
    assert_eq!(Scalar::from_u64(22).limbs(), [22, 0, 0, 0]);
    assert_eq!(Scalar::from_u64(u64::MAX).limbs(), [u64::MAX, 0, 0, 0]);
}

#[test]
fn zero_and_one() {
    assert_eq!(Scalar::zero(), Scalar::from_u64(0));
    assert_eq!(Scalar::one(), Scalar::from_u64(1));
    assert!(Scalar::zero().is_zero());
    assert!(!Scalar::one().is_zero());
}

#[test]
fn is_zero_reads_every_limb() {
    assert!(!Scalar::from_limbs([0, 1, 0, 0]).unwrap().is_zero());
    assert!(!Scalar::from_limbs([0, 0, 1, 0]).unwrap().is_zero());
    assert!(!Scalar::from_limbs([0, 0, 0, 1]).unwrap().is_zero());
}

#[test]
fn from_limbs_refuses_the_modulus() {
    assert_eq!(Scalar::from_limbs(MODULUS), None);
}

#[test]
fn from_limbs_accepts_the_largest_element() {
    let top = [MODULUS[0] - 1, MODULUS[1], MODULUS[2], MODULUS[3]];
    assert_eq!(Scalar::from_limbs(top).unwrap().limbs(), top);
}

#[test]
fn from_limbs_compares_from_the_top_limb_down() {
    assert_eq!(Scalar::from_limbs([0, 0, 0, 0x4000000000000001]), None);
    assert_eq!(Scalar::from_limbs([0, 0, 1, 0x4000000000000000]), None);
    assert_eq!(Scalar::from_limbs([0, 0x224698fc0994a8de, 0, 0x4000000000000000]), None);
    assert!(Scalar::from_limbs([u64::MAX, 0x224698fc0994a8dc, 0, 0x4000000000000000]).is_some());
    assert!(Scalar::from_limbs([u64::MAX, u64::MAX, u64::MAX, 0x3fffffffffffffff]).is_some());
}

#[test]
fn to_u64_of_small_and_large() {
    assert_eq!(Scalar::from_u64(7).to_u64(), Some(7));
    assert_eq!(Scalar::from_limbs([7, 1, 0, 0]).unwrap().to_u64(), None);
    assert_eq!(Scalar::from_limbs([7, 0, 0, 1]).unwrap().to_u64(), None);
}

#[test]
fn same_compares_limbs() {
    let a = Scalar::from_limbs([1, 2, 3, 4]).unwrap();
    let b = Scalar::from_limbs([1, 2, 3, 4]).unwrap();
    let c = Scalar::from_limbs([1, 2, 3, 5]).unwrap();
    assert!(a.same(&b));
    assert!(!a.same(&c));
}

#[test]
fn from_bytes_le_reads_least_significant_first() {
    let mut bytes = [0u8; 32];
    bytes[0] = 0x01;
    bytes[1] = 0x02;
    bytes[8] = 0x03;
    bytes[23] = 0x04;
    bytes[31] = 0x3f;
    let s = Scalar::from_bytes_le(&bytes).unwrap();
    assert_eq!(s.limbs(), [0x0201, 0x03, 0x0400000000000000, 0x3f00000000000000]);
}

#[test]
fn from_bytes_le_refuses_the_modulus() {
    let mut bytes = [0u8; 32];
    for (k, limb) in MODULUS.iter().enumerate() {
        bytes[8 * k..8 * k + 8].copy_from_slice(&limb.to_le_bytes());
    }
    assert_eq!(Scalar::from_bytes_le(&bytes), None);
    bytes[0] = 0;
    assert_eq!(
        Scalar::from_bytes_le(&bytes).unwrap().limbs(),
        [MODULUS[0] - 1, MODULUS[1], MODULUS[2], MODULUS[3]]
    );
}

#[test]
fn bounded_changes_nothing() {
    let s = Scalar::from_u64(9);
    s.bounded();
    assert_eq!(s, Scalar::from_u64(9));
}
