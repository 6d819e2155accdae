use halo2_vote::field::FieldElement;
use halo2_vote::flagged_tally::{check_flagged_circuit, check_flagged_gates, flagged_next_tally};
use halo2_vote::tally::{check_binary_vote, Tally};

fn fe(n: u64) -> FieldElement {
    FieldElement::from_u64(n)
}

fn tally(total: u64, yes: u64, no: u64) -> Tally {
    Tally { total: fe(total), yes: fe(yes), no: fe(no) }
}

/// The prover's row for `vote`, checked against the expected instances.
fn accepts(vote: u64, prev: Tally, is_first: bool, instances: Tally) -> bool {
    let v = fe(vote);
    let next = flagged_next_tally(&v, &prev, is_first);
    check_flagged_circuit(&v, &prev, is_first, &next, &instances)
}

#[test]
fn test_democratic_yes_vote() {
    assert!(accepts(1, tally(0, 0, 0), true, tally(1, 1, 0)));
}

#[test]
fn test_democratic_no_vote() {
    assert!(accepts(0, tally(0, 0, 0), true, tally(1, 0, 1)));
}

#[test]
fn test_democratic_aggregation() {
    assert!(accepts(0, tally(1, 1, 0), false, tally(2, 1, 1)));
}

#[test]
fn test_invalid_vote_rejection() {
    assert!(!accepts(2, tally(0, 0, 0), true, tally(1, 0, 1)), "Invalid vote should have been rejected!");
    assert!(!check_binary_vote(&fe(2)));
}

#[test]
fn test_three_vote_recursive_with_performance() {
    let votes = [1u64, 0, 1];
    let mut prev = tally(0, 0, 0);
    for (i, &vote) in votes.iter().enumerate() {
        let is_first_vote = i == 0;
        let expected = Tally {
            total: fe((i + 1) as u64),
            yes: prev.yes.plus(&fe(vote)),
            no: prev.no.plus(&fe(1).minus(&fe(vote))),
        };
        assert!(accepts(vote, prev, is_first_vote, expected), "Circuit verification should pass");
        prev = flagged_next_tally(&fe(vote), &prev, is_first_vote);
        assert_eq!(prev, expected);
    }
    assert_eq!(prev.total, fe(votes.len() as u64), "Final vote count should match number of votes");
    assert_eq!(prev.yes.plus(&prev.no), prev.total, "Yes + No should equal total");
    let expected_yes = votes.iter().filter(|&&v| v == 1).count() as u64;
    let expected_no = votes.iter().filter(|&&v| v == 0).count() as u64;
    assert_eq!(prev.yes, fe(expected_yes), "Yes count should be correct");
    assert_eq!(prev.no, fe(expected_no), "No count should be correct");
}

#[test]
fn first_flag_ignores_previous_tally() {
    assert_eq!(flagged_next_tally(&fe(1), &tally(9, 4, 5), true), tally(1, 1, 0));
    assert_eq!(flagged_next_tally(&fe(1), &tally(9, 4, 5), false), tally(10, 5, 5));
}

#[test]
fn wrong_instances_are_rejected() {
    assert!(!accepts(1, tally(0, 0, 0), true, tally(1, 0, 1)));
    assert!(!accepts(0, tally(1, 1, 0), false, tally(1, 1, 1)));
}

#[test]
fn forged_new_tally_is_rejected() {
    let v = fe(1);
    let prev = tally(1, 1, 0);
    let forged = tally(3, 2, 0);
    assert!(!check_flagged_circuit(&v, &prev, false, &forged, &forged));
}

fn neg(n: u64) -> FieldElement {
    fe(0).minus(&fe(n))
}

#[test]
fn binary_gate_rejects_values_near_the_modulus() {
    assert!(check_binary_vote(&fe(0)));
    assert!(check_binary_vote(&fe(1)));
    assert!(!check_binary_vote(&fe(u64::MAX)));
    assert!(!check_binary_vote(&neg(1)));
    assert!(!check_binary_vote(&neg(2)));
    let half = fe(1 << 63).times(&fe(1 << 63)).times(&fe(1 << 63)).times(&fe(1 << 63));
    assert!(!check_binary_vote(&half));
}

#[test]
fn flag_cell_of_two_subtracts_the_previous_tally() {
    // with flag 2, each count is its start value minus the previous count
    let prev = tally(3, 2, 1);
    let next = Tally { total: neg(2), yes: neg(1), no: neg(1) };
    assert!(check_flagged_gates(&fe(1), &prev, &fe(2), &next));
    assert!(!check_flagged_gates(&fe(1), &prev, &fe(2), &tally(4, 3, 1)));
    assert!(!check_flagged_gates(&fe(1), &prev, &fe(2), &tally(1, 1, 0)));
}

#[test]
fn flag_cell_of_one_or_zero_gives_first_or_later_tally() {
    let prev = tally(3, 2, 1);
    assert!(check_flagged_gates(&fe(0), &prev, &fe(1), &tally(1, 0, 1)));
    assert!(check_flagged_gates(&fe(0), &prev, &fe(0), &tally(4, 2, 2)));
    assert!(!check_flagged_gates(&fe(0), &prev, &fe(0), &tally(1, 0, 1)));
}
