use halo2_vote::field::FieldElement;
use halo2_vote::vote_commitment::{
    check_vote_gate, commitment_bytes, decode_commitment, verification_instances, vote_instances,
    vote_witness,
};

#[test]
fn test_vote_proof_roundtrip() {
    let vote: u64 = 42;
    let secret: u64 = 42;
    let published = vote_instances(vote, secret);
    let com = commitment_bytes(&published.commitment);
    assert_eq!(com.len(), 32);
    assert!(check_vote_gate(&vote_witness(secret), &published.tally), "prover returned error");
    let read = verification_instances(vote, &com).expect("verification failed");
    assert_eq!(read, published);
    assert!(check_vote_gate(&vote_witness(secret), &read.tally), "verification failed");
}

#[test]
fn test_vote_proof_invalid_vote() {
    let vote: u64 = 42;
    let secret: u64 = 42;
    let published = vote_instances(vote, secret);
    let com = commitment_bytes(&published.commitment);
    let wrong_vote = vote + 1;
    let read = verification_instances(wrong_vote, &com).expect("commitment must decode");
    assert_eq!(read.tally, FieldElement::from_u64(1));
    assert!(
        !check_vote_gate(&vote_witness(secret), &read.tally),
        "verification should fail for mismatched vote"
    );
}

#[test]
fn commitment_is_poseidon_of_the_private_vote() {
    let a = vote_instances(1, 7);
    let b = vote_instances(2, 7);
    assert_eq!(a.commitment, b.commitment);
    assert_eq!(a.commitment, FieldElement::from_u64(1).poseidon_hash());
    assert_ne!(a.commitment, FieldElement::from_u64(1));
    assert_ne!(a.commitment, FieldElement::from_u64(0).poseidon_hash());
    assert_eq!(a.tally, FieldElement::from_u64(1));
    assert_eq!(b.tally, FieldElement::from_u64(0));
}

#[test]
fn malformed_commitments_are_refused() {
    assert_eq!(decode_commitment(&[0u8; 31]), None);
    assert_eq!(decode_commitment(&[0u8; 33]), None);
    assert_eq!(decode_commitment(&[0xffu8; 32]), None);
    assert_eq!(verification_instances(1, &[1u8; 3]), None);
    let mut one = [0u8; 32];
    one[0] = 1;
    assert_eq!(decode_commitment(&one), Some(FieldElement::from_u64(1)));
}

#[test]
fn inputs_are_reduced_mod_two() {
    assert_eq!(vote_witness(42), FieldElement::from_u64(0));
    assert_eq!(vote_witness(3), FieldElement::from_u64(1));
    let published = vote_instances(3, 1);
    assert_eq!(published.tally, FieldElement::from_u64(1));
    assert!(check_vote_gate(&vote_witness(1), &published.tally));
    let com = commitment_bytes(&published.commitment);
    let read = verification_instances(3, &com).expect("commitment must decode");
    assert!(check_vote_gate(&vote_witness(1), &read.tally));
    let other = verification_instances(4, &com).expect("commitment must decode");
    assert!(!check_vote_gate(&vote_witness(1), &other.tally));
}

#[test]
fn non_boolean_votes_are_rejected() {
    let v = FieldElement::from_u64(42);
    assert!(!check_vote_gate(&v, &v));
    let two = FieldElement::from_u64(2);
    assert!(!check_vote_gate(&two, &two));
    assert!(check_vote_gate(&FieldElement::from_u64(0), &FieldElement::from_u64(0)));
    assert!(check_vote_gate(&FieldElement::from_u64(1), &FieldElement::from_u64(1)));
    assert!(!check_vote_gate(&FieldElement::from_u64(0), &FieldElement::from_u64(1)));
}
