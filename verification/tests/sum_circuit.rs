use halo2_vote::field::FieldElement;
use halo2_vote::sum_circuit::{check_private_sum_gate, check_sum_gates, sum_instance, sum_witness};

fn fe(n: u64) -> FieldElement {
    FieldElement::from_u64(n)
}

#[test]
fn sum_witness_adds_inputs() {
    assert_eq!(sum_witness(&fe(2), &fe(3)), fe(5));
}

#[test]
fn sum_instance_matches_witness_for_small_inputs() {
    assert_eq!(sum_instance(2, 3), fe(5));
    assert_eq!(sum_instance(2, 3), sum_witness(&fe(2), &fe(3)));
}

#[test]
fn sum_instance_does_not_wrap_at_u64() {
    let c = sum_instance(u64::MAX, u64::MAX);
    let repr = c.to_repr();
    // 2 * (2^64 - 1) = 2^65 - 2: low limb 0xff..fe, then a single 1 bit.
    assert_eq!(repr[0], 0xfe);
    for i in 1..8 {
        assert_eq!(repr[i], 0xff);
    }
    assert_eq!(repr[8], 1);
    for i in 9..32 {
        assert_eq!(repr[i], 0);
    }
}

#[test]
fn honest_sum_row_satisfies_gates() {
    let (a, b) = (fe(2), fe(3));
    let c = sum_witness(&a, &b);
    assert!(check_sum_gates(&a, &b, &c, &sum_instance(2, 3)));
    assert!(check_private_sum_gate(&a, &b, &c));
}

#[test]
fn wrong_sum_or_wrong_public_output_is_rejected() {
    let (a, b) = (fe(2), fe(3));
    assert!(!check_sum_gates(&a, &b, &fe(6), &fe(6)));
    assert!(!check_sum_gates(&a, &b, &fe(5), &fe(6)));
    assert!(!check_private_sum_gate(&a, &b, &fe(4)));
}
