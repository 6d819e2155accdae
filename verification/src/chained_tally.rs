//! The recursive tallying circuit that infers the first vote from an empty
//! previous tally, together with its in-circuit check of the previous
//! proof's public outputs. One row holds the current vote, the previous tally
//! and the new tally; the gates demand
//!
//! * a binary vote: `v * (v - 1) = 0`,
//! * a consistent previous tally: `prev_total - prev_yes - prev_no = 0`,
//! * `new_total - prev_total - 1 = 0`, `new_yes - prev_yes - v = 0` and
//!   `new_no - prev_no - (1 - v) = 0`,
//!
//! and the new tally is exposed as the three public instances. When a
//! previous proof is carried, the verifier gadget re-checks the previous
//! outputs (`total - (yes + no) = 0`) and assigns a binary result cell.

use crate::field::{fadd, fmul, fsub, lemma_fadd_zero, lemma_fsub_eq_iff, modulus, FieldElement};
use crate::tally::{
    binary_vote_gate_holds, check_binary_vote, count_where, is_binary, is_consistent, is_reduced,
    lemma_binary_counts_split, lemma_binary_votes_pass, lemma_count_where_bounded, lemma_one_minus_binary,
    Tally,
};
use vstd::arithmetic::div_mod::{lemma_add_mod_noop, lemma_small_mod};
use vstd::prelude::*;

verus! {

/// The tally after `vote`: one more vote in total, `v` more yes votes and
/// `1 - v` more no votes.
pub open spec fn chained_step(vote: nat, prev: (nat, nat, nat)) -> (nat, nat, nat) {
    (fadd(prev.0, 1), fadd(prev.1, vote), fadd(prev.2, fsub(1, vote)))
}

/// The consistency gate on the previous tally.
pub open spec fn previous_gate_holds(prev: (nat, nat, nat)) -> bool {
    fsub(fsub(prev.0, prev.1), prev.2) == 0
}

/// The three aggregation gates.
pub open spec fn chained_gates_hold(vote: nat, prev: (nat, nat, nat), next: (nat, nat, nat)) -> bool {
    &&& fsub(fsub(next.0, prev.0), 1) == 0
    &&& fsub(fsub(next.1, prev.1), vote) == 0
    &&& fsub(fsub(next.2, prev.2), fsub(1, vote)) == 0
}

/// Every constraint of the vote row and its public instances.
pub open spec fn chained_circuit_accepts(
    vote: nat,
    prev: (nat, nat, nat),
    next: (nat, nat, nat),
    instances: (nat, nat, nat),
) -> bool {
    &&& binary_vote_gate_holds(vote)
    &&& previous_gate_holds(prev)
    &&& chained_gates_hold(vote, prev, next)
    &&& next == instances
}

/// The result cell that the verifier gadget assigns for the previous
/// outputs: 1 when yes and no add up to the total, else 0.
pub open spec fn verification_result_of(prev: (nat, nat, nat)) -> nat {
    if is_consistent(prev) {
        1
    } else {
        0
    }
}

/// The verifier gadget's gates: the previous outputs are consistent, and the
/// result cell is binary.
pub open spec fn verifier_gates_hold(prev: (nat, nat, nat), result: nat) -> bool {
    &&& fsub(prev.0, fadd(prev.1, prev.2)) == 0
    &&& fmul(result, fsub(result, 1)) == 0
}

/// The tally after a whole sequence of votes, from the empty tally.
pub open spec fn chained_tally_of(votes: Seq<nat>) -> (nat, nat, nat)
    decreases votes.len(),
{
    if votes.len() == 0 {
        (0, 0, 0)
    } else {
        chained_step(votes.last(), chained_tally_of(votes.drop_last()))
    }
}

/// The new tally that the prover assigns for `vote` after `prev`.
pub fn chained_next_tally(vote: &FieldElement, prev: &Tally) -> (next: Tally)
    ensures
        next@ == chained_step(vote@, prev@),
{
    let one = FieldElement::one();
    Tally {
        total: prev.total.plus(&one),
        yes: prev.yes.plus(vote),
        no: prev.no.plus(&one.minus(vote)),
    }
}

/// Evaluates every constraint of the vote row and its instances.
pub fn check_chained_circuit(vote: &FieldElement, prev: &Tally, next: &Tally, instances: &Tally) -> (ok: bool)
    ensures
        ok == chained_circuit_accepts(vote@, prev@, next@, instances@),
{
    let zero = FieldElement::zero();
    let one = FieldElement::one();
    let binary = check_binary_vote(vote);
    let previous = prev.total.minus(&prev.yes).minus(&prev.no).equals(&zero);
    let count_gate = next.total.minus(&prev.total).minus(&one).equals(&zero);
    let yes_gate = next.yes.minus(&prev.yes).minus(vote).equals(&zero);
    let no_gate = next.no.minus(&prev.no).minus(&one.minus(vote)).equals(&zero);
    let exposed = next.total.equals(&instances.total) && next.yes.equals(&instances.yes)
        && next.no.equals(&instances.no);
    binary && previous && count_gate && yes_gate && no_gate && exposed
}

/// The verifier gadget's result cell for the previous outputs.
pub fn verification_result(prev: &Tally) -> (r: FieldElement)
    ensures
        r@ == verification_result_of(prev@),
{
    if prev.yes.plus(&prev.no).equals(&prev.total) {
        FieldElement::one()
    } else {
        FieldElement::zero()
    }
}

/// Evaluates the verifier gadget's gates.
pub fn check_verifier_gates(prev: &Tally, result: &FieldElement) -> (ok: bool)
    ensures
        ok == verifier_gates_hold(prev@, result@),
{
    let zero = FieldElement::zero();
    let consistent = prev.total.minus(&prev.yes.plus(&prev.no)).equals(&zero);
    let binary = check_binary_vote(result);
    consistent && binary
}

/// The consistency gate holds exactly on consistent reduced tallies.
pub proof fn lemma_previous_gate_exact(prev: (nat, nat, nat))
    requires
        is_reduced(prev),
    ensures
        previous_gate_holds(prev) <==> is_consistent(prev),
        fsub(prev.0, fadd(prev.1, prev.2)) == 0 <==> is_consistent(prev),
{
    lemma_fsub_eq_iff(fsub(prev.0, prev.1), prev.2, 0);
    lemma_fadd_zero(prev.2);
    lemma_fsub_eq_iff(prev.0, prev.1, prev.2);
    crate::field::lemma_fsub_zero_iff_equal(prev.0, fadd(prev.1, prev.2));
}

/// The aggregation gates determine the new tally: on reduced values they hold
/// exactly when `next` is `chained_step(vote, prev)`.
pub proof fn lemma_chained_gates_exact(vote: nat, prev: (nat, nat, nat), next: (nat, nat, nat))
    requires
        vote < modulus(),
        is_reduced(prev),
        is_reduced(next),
    ensures
        chained_gates_hold(vote, prev, next) <==> next == chained_step(vote, prev),
{
    let against = fsub(1, vote);
    lemma_fsub_eq_iff(fsub(next.0, prev.0), 1, 0);
    lemma_fsub_eq_iff(fsub(next.1, prev.1), vote, 0);
    lemma_fsub_eq_iff(fsub(next.2, prev.2), against, 0);
    lemma_small_mod(1, modulus());
    lemma_fadd_zero(1);
    lemma_fadd_zero(vote);
    lemma_fadd_zero(against);
    lemma_fsub_eq_iff(next.0, prev.0, 1);
    lemma_fsub_eq_iff(next.1, prev.1, vote);
    lemma_fsub_eq_iff(next.2, prev.2, against);
}

/// An honest prover is accepted: for a binary vote after a consistent
/// tally, the tally from `chained_next_tally`, published as the instances,
/// satisfies every constraint of the vote row.
pub proof fn lemma_chained_witness_accepted(vote: nat, prev: (nat, nat, nat))
    requires
        is_binary(vote),
        is_reduced(prev),
        is_consistent(prev),
    ensures
        chained_circuit_accepts(vote, prev, chained_step(vote, prev), chained_step(vote, prev)),
{
    lemma_binary_votes_pass(vote);
    lemma_previous_gate_exact(prev);
    lemma_chained_gates_exact(vote, prev, chained_step(vote, prev));
}

/// The verifier gadget's result is always binary, so its own gates hold
/// exactly when the previous outputs are consistent; and the result is 1
/// exactly then.
pub proof fn lemma_verifier_result(prev: (nat, nat, nat))
    requires
        is_reduced(prev),
    ensures
        binary_vote_gate_holds(verification_result_of(prev)),
        verifier_gates_hold(prev, verification_result_of(prev)) <==> is_consistent(prev),
        (verification_result_of(prev) == 1) <==> is_consistent(prev),
{
    lemma_binary_votes_pass(verification_result_of(prev));
    lemma_previous_gate_exact(prev);
}

/// Each vote keeps a tally consistent.
pub proof fn lemma_chained_step_consistent(vote: nat, prev: (nat, nat, nat))
    requires
        is_binary(vote),
        is_consistent(prev),
    ensures
        is_consistent(chained_step(vote, prev)),
{
    lemma_one_minus_binary(vote);
    let p = modulus() as int;
    let (c, y, n) = prev;
    lemma_add_mod_noop((y + vote) as int, (n + (1 - vote)) as int, p);
    lemma_add_mod_noop((y + n) as int, 1, p);
    lemma_small_mod(1, modulus());
    assert((y + vote) + (n + (1 - vote)) == (y + n) + 1);
}

/// Tallying a chain of binary votes from the empty tally counts them: the
/// total is the number of votes, yes the number of ones, no the number of
/// zeros; and every intermediate tally is consistent.
pub proof fn lemma_chained_tally_counts(votes: Seq<nat>)
    requires
        votes.len() < modulus(),
        forall|i: int| 0 <= i < votes.len() ==> is_binary(#[trigger] votes[i]),
    ensures
        chained_tally_of(votes) == (votes.len(), count_where(votes, 1), count_where(votes, 0)),
        is_consistent(chained_tally_of(votes)),
    decreases votes.len(),
{
    if votes.len() == 0 {
        lemma_fadd_zero(0);
    } else {
        let init = votes.drop_last();
        let v = votes.last();
        assert(is_binary(votes[votes.len() - 1]));
        assert forall|i: int| 0 <= i < init.len() implies is_binary(#[trigger] init[i]) by {
            assert(init[i] == votes[i]);
        }
        lemma_chained_tally_counts(init);
        lemma_chained_step_consistent(v, chained_tally_of(init));
        lemma_one_minus_binary(v);
        lemma_binary_counts_split(votes);
        lemma_count_where_bounded(votes, 1);
        lemma_count_where_bounded(votes, 0);
        lemma_small_mod(init.len() + 1, modulus());
        lemma_small_mod(count_where(votes, 1), modulus());
        lemma_small_mod(count_where(votes, 0), modulus());
    }
}

/// On reduced cells the verifier gadget's gates hold exactly when the
/// previous outputs are consistent and the result cell is binary.
pub proof fn lemma_verifier_gates_exact(prev: (nat, nat, nat), result: nat)
    requires
        is_reduced(prev),
        result < modulus(),
    ensures
        verifier_gates_hold(prev, result) <==> (is_consistent(prev) && is_binary(result)),
{
    lemma_previous_gate_exact(prev);
    crate::tally::lemma_binary_gate_exact(result);
}

/// On reduced cells the vote row's constraints accept exactly a binary vote
/// after a consistent tally, with `chained_step` as the new tally and as the
/// public instances.
pub proof fn lemma_chained_circuit_exact(
    vote: nat,
    prev: (nat, nat, nat),
    next: (nat, nat, nat),
    instances: (nat, nat, nat),
)
    requires
        vote < modulus(),
        is_reduced(prev),
        is_reduced(next),
    ensures
        chained_circuit_accepts(vote, prev, next, instances) <==> {
            &&& is_binary(vote)
            &&& is_consistent(prev)
            &&& next == chained_step(vote, prev)
            &&& instances == next
        },
{
    crate::tally::lemma_binary_gate_exact(vote);
    lemma_previous_gate_exact(prev);
    lemma_chained_gates_exact(vote, prev, next);
}

} // verus!
