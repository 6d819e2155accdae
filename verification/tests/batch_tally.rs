use halo2_vote::batch_tally::{check_batch_gates, count_and_tally, vote_slots, BatchTally, VOTE_SLOTS};
use halo2_vote::field::FieldElement;

fn fe(n: u64) -> FieldElement {
    FieldElement::from_u64(n)
}

fn votes_of(values: &[u64]) -> Vec<FieldElement> {
    values.iter().map(|v| fe(*v)).collect()
}

/// Runs the circuit's gates on the row that the prover assigns.
fn row_accepted(votes: &Vec<FieldElement>, target: &FieldElement) -> (bool, BatchTally) {
    let t = count_and_tally(votes, target);
    let slots = vote_slots(votes);
    (check_batch_gates(&slots, target, &t.tally), t)
}

#[test]
fn test_batch_proof_aggregation() {
    let target = fe(1);
    let votes = votes_of(&[1, 1, 1]);
    let (ok, t) = row_accepted(&votes, &target);
    assert!(ok, "Aggregated proof verification failed");
    assert_eq!(t.count, 3);
    assert_eq!(t.tally, fe(3));
}

#[test]
fn test_dynamic_aggregation_various_patterns() {
    let target = fe(1);
    let cases: Vec<(Vec<u64>, &str, u64, u64)> = vec![
        (vec![1, 1, 1], "All valid votes", 3, 3),
        (vec![1, 0, 1], "Mixed valid/abstain", 2, 2),
        (vec![1], "Single vote", 1, 1),
        (vec![0, 0, 0], "All abstentions", 0, 0),
        (vec![1, 1, 1, 1, 1], "Five valid votes", 5, 5),
        (vec![1, 0, 1, 1, 0, 1, 1, 0, 1, 1], "Ten votes mixed", 7, 7),
    ];
    for (values, description, expected_count, expected_tally) in cases {
        let votes = votes_of(&values);
        let (ok, t) = row_accepted(&votes, &target);
        assert!(ok, "Unexpected verification failure for valid votes: {}", description);
        assert_eq!(t.count, expected_count, "{}", description);
        assert_eq!(t.tally, fe(expected_tally), "{}", description);
    }
}

#[test]
fn test_five_vote_aggregation_with_performance() {
    let target = fe(1);
    let values = [1u64, 1, 0, 1, 1];
    for &v in values.iter() {
        if v != 0 {
            let (ok, _) = row_accepted(&votes_of(&[v]), &target);
            assert!(ok, "verification should succeed");
        }
    }
    let votes = votes_of(&values);
    let (ok, t) = row_accepted(&votes, &target);
    assert!(ok, "Circuit verification should pass");
    let valid_vote_count = values.iter().filter(|&&v| v != 0).count() as u64;
    assert_eq!(valid_vote_count, 4);
    assert_eq!(t.count, valid_vote_count);
    assert_eq!(t.tally, fe(valid_vote_count));
}

#[test]
fn test_ten_vote_aggregation_maximum_capacity() {
    let target = fe(1);
    let values = [1u64, 1, 0, 1, 1, 0, 1, 1, 0, 1];
    assert_eq!(values.len(), 10, "Should be testing maximum capacity of 10 votes");
    for &v in values.iter() {
        if v != 0 {
            let (ok, _) = row_accepted(&votes_of(&[v]), &target);
            assert!(ok, "verification should succeed");
        }
    }
    let votes = votes_of(&values);
    let (ok, t) = row_accepted(&votes, &target);
    assert!(ok, "Circuit verification should pass");
    assert_eq!(t.count, 7);
    assert_eq!(t.tally, fe(7));
}

#[test]
fn slots_pad_with_zeros_and_truncate_at_ten() {
    let slots = vote_slots(&votes_of(&[1, 2]));
    assert_eq!(slots.len(), VOTE_SLOTS);
    assert_eq!(slots[0], fe(1));
    assert_eq!(slots[1], fe(2));
    for s in &slots[2..] {
        assert_eq!(*s, fe(0));
    }
    let long = votes_of(&[1; 12]);
    assert_eq!(vote_slots(&long).len(), VOTE_SLOTS);
}

#[test]
fn vote_off_target_is_rejected_and_not_counted() {
    let target = fe(1);
    let votes = votes_of(&[1, 2, 1]);
    let (ok, t) = row_accepted(&votes, &target);
    assert!(!ok);
    assert_eq!(t.count, 2);
    assert_eq!(t.tally, fe(2));
}

#[test]
fn wrong_tally_is_rejected() {
    let target = fe(1);
    let slots = vote_slots(&votes_of(&[1, 1]));
    assert!(check_batch_gates(&slots, &target, &fe(2)));
    assert!(!check_batch_gates(&slots, &target, &fe(3)));
    assert!(!check_batch_gates(&votes_of(&[1, 1]), &target, &fe(2)));
}

#[test]
fn zero_target_counts_nothing() {
    let (ok, t) = row_accepted(&votes_of(&[0, 0]), &fe(0));
    assert!(ok);
    assert_eq!(t.count, 0);
    assert_eq!(t.tally, fe(0));
}

#[test]
fn target_just_below_the_modulus_admits_only_itself_and_zero() {
    let target = fe(0).minus(&fe(1));
    let two_targets = target.plus(&target);
    let votes = vec![target, fe(0), target];
    let (ok, t) = row_accepted(&votes, &target);
    assert!(ok);
    assert_eq!(t.count, 2);
    assert!(!row_accepted(&vec![fe(1)], &target).0);
    assert!(!row_accepted(&vec![two_targets], &target).0);
}
