use halo2_vote::chained_tally::{
    check_chained_circuit, check_verifier_gates, chained_next_tally, verification_result,
};
use halo2_vote::field::FieldElement;
use halo2_vote::recursive_io::{
    decode_public_outputs, decode_vote, encode_public_outputs, failure_code, field_to_bytes,
    parse_field_from_bytes, plan_recursive_step, PipelineStage, MALFORMED_OUTPUTS_CODE,
    PUBLIC_OUTPUTS_LEN, SUCCESS_CODE,
};
use halo2_vote::tally::Tally;

fn fe(n: u64) -> FieldElement {
    FieldElement::from_u64(n)
}

fn tally(total: u64, yes: u64, no: u64) -> Tally {
    Tally { total: fe(total), yes: fe(yes), no: fe(no) }
}

/// Checks the vote row and, when a previous proof is carried, the verifier
/// gadget's region, as the circuit lays them out.
fn circuit_accepts(vote: u64, prev: Tally, carries_previous_proof: bool, instances: Tally) -> bool {
    let v = fe(vote);
    let next = chained_next_tally(&v, &prev);
    let row = check_chained_circuit(&v, &prev, &next, &instances);
    if carries_previous_proof {
        row && check_verifier_gates(&prev, &verification_result(&prev))
    } else {
        row
    }
}

#[test]
fn test_recursive_vote_first_proof() {
    assert!(
        circuit_accepts(1, tally(0, 0, 0), false, tally(1, 1, 0)),
        "First vote circuit verification should pass"
    );
}

#[test]
fn test_recursive_vote_second_proof() {
    let prev = tally(1, 1, 0);
    assert_eq!(verification_result(&prev), fe(1));
    assert!(
        circuit_accepts(0, prev, true, tally(2, 1, 1)),
        "Second vote circuit verification should pass"
    );
}

#[test]
fn test_recursive_vote_with_actual_proofs() {
    let votes = [1u64, 0, 1];
    let mut current = tally(0, 0, 0);
    for &vote in votes.iter() {
        let carries = current.total != fe(0);
        let expected = Tally {
            total: current.total.plus(&fe(1)),
            yes: current.yes.plus(&fe(vote)),
            no: current.no.plus(&fe(1).minus(&fe(vote))),
        };
        assert!(circuit_accepts(vote, current, carries, expected), "verification should succeed");
        current = chained_next_tally(&fe(vote), &current);
        assert_eq!(current, expected);
    }
    assert_eq!(current.total, fe(votes.len() as u64));
    assert_eq!(current.yes.plus(&current.no), current.total);
}

#[test]
fn inconsistent_previous_tally_is_rejected() {
    let prev = tally(2, 1, 0);
    assert_eq!(verification_result(&prev), fe(0));
    assert!(!check_verifier_gates(&prev, &verification_result(&prev)));
    let v = fe(1);
    let next = chained_next_tally(&v, &prev);
    assert!(!check_chained_circuit(&v, &prev, &next, &next));
}

#[test]
fn verifier_result_must_be_binary() {
    assert!(!check_verifier_gates(&tally(1, 1, 0), &fe(2)));
    assert!(check_verifier_gates(&tally(1, 1, 0), &fe(0)));
}

#[test]
fn invalid_vote_is_rejected() {
    let prev = tally(0, 0, 0);
    let v = fe(2);
    let next = chained_next_tally(&v, &prev);
    assert!(!check_chained_circuit(&v, &prev, &next, &next));
}

#[test]
fn parse_reads_first_byte_only() {
    assert_eq!(parse_field_from_bytes(&[]), fe(0));
    assert_eq!(parse_field_from_bytes(&[7, 9, 11]), fe(7));
    assert_eq!(parse_field_from_bytes(&[255]), fe(255));
}

#[test]
fn field_to_bytes_keeps_the_low_byte() {
    assert_eq!(field_to_bytes(fe(3)), [3, 0, 0, 0, 0, 0, 0, 0]);
    assert_eq!(field_to_bytes(fe(300)), [44, 0, 0, 0, 0, 0, 0, 0]);
}

#[test]
fn vote_byte_is_normalised() {
    assert_eq!(decode_vote(0), fe(0));
    assert_eq!(decode_vote(1), fe(1));
    assert_eq!(decode_vote(200), fe(1));
}

#[test]
fn public_outputs_roundtrip() {
    let t = tally(3, 2, 1);
    let bytes = encode_public_outputs(&t);
    assert_eq!(bytes.len(), PUBLIC_OUTPUTS_LEN);
    assert_eq!(bytes, vec![3, 0, 0, 0, 0, 0, 0, 0, 2, 0, 0, 0, 0, 0, 0, 0, 1, 0, 0, 0, 0, 0, 0, 0]);
    assert_eq!(decode_public_outputs(&bytes), Some(t));
    let big = tally(300, 299, 1);
    assert_eq!(decode_public_outputs(&encode_public_outputs(&big)), Some(tally(44, 43, 1)));
}

#[test]
fn short_public_outputs_are_refused() {
    assert_eq!(decode_public_outputs(&[0u8; 23]), None);
    assert_eq!(decode_public_outputs(&[]), None);
    assert_eq!(MALFORMED_OUTPUTS_CODE, 5);
}

#[test]
fn plan_of_first_and_later_votes() {
    let first = plan_recursive_step(9, &[], &[], &[]);
    assert_eq!(first.vote, fe(1));
    assert_eq!(first.previous, tally(0, 0, 0));
    assert_eq!(first.next, tally(1, 1, 0));
    assert!(!first.carries_previous_proof);

    let later = plan_recursive_step(0, &[1], &[1], &[0]);
    assert_eq!(later.vote, fe(0));
    assert_eq!(later.next, tally(2, 1, 1));
    assert!(later.carries_previous_proof);
}

#[test]
fn stage_failure_codes() {
    assert_eq!(SUCCESS_CODE, 0);
    assert_eq!(failure_code(PipelineStage::Parameters), 1);
    assert_eq!(failure_code(PipelineStage::VerifyingKey), 2);
    assert_eq!(failure_code(PipelineStage::ProvingKey), 3);
    assert_eq!(failure_code(PipelineStage::Proof), 4);
}
