use halo2_vote::field::FieldElement;

fn fe(n: u64) -> FieldElement {
    FieldElement::from_u64(n)
}

/// p - 1 as little-endian bytes.
fn p_minus_one() -> [u8; 32] {
    let mut r = [0u8; 32];
    let limbs: [u64; 4] = [0x992d30ed00000000, 0x224698fc094cf91b, 0, 0x4000000000000000];
    for (i, limb) in limbs.iter().enumerate() {
        r[i * 8..i * 8 + 8].copy_from_slice(&limb.to_le_bytes());
    }
    r
}

#[test]
fn subtraction_wraps_below_zero() {
    let r = fe(0).minus(&fe(1));
    assert_eq!(r.to_repr(), p_minus_one());
    assert_eq!(r.plus(&fe(1)), fe(0));
}

#[test]
fn multiplication_and_addition() {
    assert_eq!(fe(6).times(&fe(7)), fe(42));
    assert_eq!(fe(40).plus(&fe(2)), fe(42));
    assert!(fe(42).equals(&fe(42)));
    assert!(!fe(42).equals(&fe(43)));
}

#[test]
fn from_repr_accepts_exactly_canonical_bytes() {
    let top = p_minus_one();
    assert_eq!(FieldElement::from_repr(top).map(|x| x.to_repr()), Some(top));
    let mut p = top;
    p[0] = 1;
    assert_eq!(FieldElement::from_repr(p), None);
    assert_eq!(FieldElement::from_repr([0xff; 32]), None);
    let mut seven = [0u8; 32];
    seven[0] = 7;
    assert_eq!(FieldElement::from_repr(seven), Some(fe(7)));
}

#[test]
fn low_byte_is_value_mod_256() {
    assert_eq!(fe(300).low_byte(), 44);
    assert_eq!(fe(255).low_byte(), 255);
}

#[test]
fn poseidon_hash_is_not_the_identity() {
    let v = fe(42);
    let h = v.poseidon_hash();
    assert_ne!(h, v);
    assert_eq!(h, fe(42).poseidon_hash());
    assert_ne!(h, fe(43).poseidon_hash());
}
