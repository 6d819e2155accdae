//! The batch aggregation circuit. Up to ten votes sit in one row, one advice
//! column each, unused columns holding zero. Each vote must be zero
//! (abstention) or the public target; the tally column must equal the field
//! sum of all ten vote columns. The prover also records how many votes are
//! nonzero and equal to the target.

use crate::field::{fadd, fmul, fsub, modulus, values, FieldElement};
use vstd::arithmetic::div_mod::{lemma_add_mod_noop, lemma_small_mod};
use vstd::arithmetic::mul::lemma_mul_is_distributive_add_other_way;
use vstd::prelude::*;

verus! {

/// Number of vote columns in the circuit.
pub const VOTE_SLOTS: usize = 10;

/// A vote is counted when it is nonzero and equals the target.
pub open spec fn is_counted(v: nat, target: nat) -> bool {
    v != 0 && v == target
}

/// The prover's count and tally over a sequence of votes: the number of
/// counted votes, and their field sum.
pub open spec fn count_and_tally_of(votes: Seq<nat>, target: nat) -> (nat, nat)
    decreases votes.len(),
{
    if votes.len() == 0 {
        (0, 0)
    } else {
        let prev = count_and_tally_of(votes.drop_last(), target);
        let v = votes.last();
        if is_counted(v, target) {
            (prev.0 + 1, fadd(prev.1, v))
        } else {
            prev
        }
    }
}

/// The ten vote columns for a sequence of votes: the first ten votes, then
/// zeros.
pub open spec fn slot_values(votes: Seq<nat>) -> Seq<nat> {
    Seq::new(VOTE_SLOTS as nat, |i: int| if i < votes.len() { votes[i] } else { 0 })
}

/// The field sum of the vote columns, added from the first column on.
pub open spec fn slot_sum(slots: Seq<nat>) -> nat
    decreases slots.len(),
{
    if slots.len() == 0 {
        0
    } else {
        fadd(slot_sum(slots.drop_last()), slots.last())
    }
}

/// The validity gate for one vote column: `v * (v - target) = 0`.
pub open spec fn slot_gate_holds(v: nat, target: nat) -> bool {
    fmul(v, fsub(v, target)) == 0
}

/// Both gates of the circuit on its active row.
pub open spec fn batch_gates_hold(slots: Seq<nat>, target: nat, tally: nat) -> bool {
    &&& slots.len() == VOTE_SLOTS
    &&& forall|i: int| 0 <= i < slots.len() ==> slot_gate_holds(#[trigger] slots[i], target)
    &&& fsub(tally, slot_sum(slots)) == 0
}

/// The result of aggregating a batch of votes.
#[derive(Clone, Copy, Debug, PartialEq, Eq)]
pub struct BatchTally {
    pub count: u64,
    pub tally: FieldElement,
}

/// Counts the votes that are nonzero and equal to the target, and sums them.
pub fn count_and_tally(votes: &Vec<FieldElement>, target: &FieldElement) -> (r: BatchTally)
    ensures
        (r.count as nat, r.tally@) == count_and_tally_of(values(votes@), target@),
{
    let zero = FieldElement::zero();
    let mut count: u64 = 0;
    let mut tally = FieldElement::zero();
    let n = votes.len();
    for i in 0..n
        invariant
            n == votes.len(),
            zero@ == 0,
            count <= i,
            (count as nat, tally@) == count_and_tally_of(values(votes@).take(i as int), target@),
    {
        let v = &votes[i];
        proof {
            assert(values(votes@).take(i + 1).drop_last() == values(votes@).take(i as int));
            assert(values(votes@).take(i + 1).last() == v@);
        }
        if !v.equals(&zero) && v.equals(target) {
            count = count + 1;
            tally = tally.plus(v);
        }
    }
    proof {
        assert(values(votes@).take(n as int) == values(votes@));
    }
    BatchTally { count, tally }
}

/// The ten vote columns that the prover assigns: the first ten votes, then
/// zeros.
pub fn vote_slots(votes: &Vec<FieldElement>) -> (slots: Vec<FieldElement>)
    ensures
        values(slots@) == slot_values(values(votes@)),
{
    let mut slots: Vec<FieldElement> = Vec::new();
    for i in 0..VOTE_SLOTS
        invariant
            slots@.len() == i,
            forall|j: int|
                0 <= j < i ==> (#[trigger] slots@[j])@ == (if j < votes@.len() {
                    votes@[j]@
                } else {
                    0
                }),
    {
        if i < votes.len() {
            slots.push(votes[i]);
        } else {
            slots.push(FieldElement::zero());
        }
    }
    assert(values(slots@) == slot_values(values(votes@)));
    slots
}

/// Evaluates both gates of the circuit on the given columns.
pub fn check_batch_gates(slots: &Vec<FieldElement>, target: &FieldElement, tally: &FieldElement) -> (ok: bool)
    ensures
        ok == batch_gates_hold(values(slots@), target@, tally@),
{
    if slots.len() != VOTE_SLOTS {
        return false;
    }
    let zero = FieldElement::zero();
    let mut all_valid = true;
    let mut sum = FieldElement::zero();
    for i in 0..VOTE_SLOTS
        invariant
            slots@.len() == VOTE_SLOTS,
            zero@ == 0,
            all_valid == forall|j: int|
                0 <= j < i ==> slot_gate_holds(#[trigger] values(slots@)[j], target@),
            sum@ == slot_sum(values(slots@).take(i as int)),
    {
        let v = &slots[i];
        let gate = v.times(&v.minus(target));
        proof {
            assert(values(slots@).take(i + 1).drop_last() == values(slots@).take(i as int));
            assert(values(slots@).take(i + 1).last() == v@);
            assert(values(slots@)[i as int] == v@);
        }
        if !gate.equals(&zero) {
            all_valid = false;
        }
        sum = sum.plus(v);
    }
    proof {
        assert(values(slots@).take(VOTE_SLOTS as int) == values(slots@));
    }
    all_valid && tally.minus(&sum).equals(&zero)
}

/// A sum of columns is always a reduced value.
proof fn lemma_slot_sum_reduced(slots: Seq<nat>)
    ensures
        slot_sum(slots) < modulus(),
    decreases slots.len(),
{
}

/// Columns that are all abstentions or the target sum to the tally of the
/// counted ones.
proof fn lemma_slot_sum_is_tally(slots: Seq<nat>, target: nat)
    requires
        forall|i: int| 0 <= i < slots.len() ==> slots[i] == 0 || slots[i] == target,
    ensures
        slot_sum(slots) == count_and_tally_of(slots, target).1,
    decreases slots.len(),
{
    if slots.len() > 0 {
        let init = slots.drop_last();
        assert forall|i: int| 0 <= i < init.len() implies init[i] == 0 || init[i] == target by {
            assert(init[i] == slots[i]);
        }
        lemma_slot_sum_is_tally(init, target);
        lemma_slot_sum_reduced(init);
        if !is_counted(slots.last(), target) {
            assert(slots.last() == 0);
            lemma_small_mod(slot_sum(init), modulus());
        }
    }
}

/// Appending abstentions changes neither the count nor the tally.
proof fn lemma_padding_not_counted(votes: Seq<nat>, target: nat, k: nat)
    ensures
        count_and_tally_of(votes + Seq::new(k, |i: int| 0nat), target) == count_and_tally_of(votes, target),
    decreases k,
{
    if k > 0 {
        let padded = votes + Seq::new(k, |i: int| 0nat);
        assert(padded.drop_last() == votes + Seq::new((k - 1) as nat, |i: int| 0nat));
        lemma_padding_not_counted(votes, target, (k - 1) as nat);
    }
}

/// An honest batch is accepted: when at most ten votes are cast and each is
/// an abstention or the target, the columns that the prover assigns
/// (`vote_slots`) and its tally (`count_and_tally`) satisfy every gate.
pub proof fn lemma_honest_batch_accepted(votes: Seq<nat>, target: nat)
    requires
        votes.len() <= VOTE_SLOTS,
        target < modulus(),
        forall|i: int| 0 <= i < votes.len() ==> votes[i] == 0 || votes[i] == target,
    ensures
        batch_gates_hold(slot_values(votes), target, count_and_tally_of(votes, target).1),
{
    let slots = slot_values(votes);
    let k = (VOTE_SLOTS - votes.len()) as nat;
    assert(slots == votes + Seq::new(k, |i: int| 0nat));
    assert forall|i: int| 0 <= i < slots.len() implies slot_gate_holds(#[trigger] slots[i], target) by {
        if i < votes.len() {
            assert(slots[i] == votes[i]);
        }
        if slots[i] == target {
            assert(fsub(target, target) == 0);
            assert(fmul(target, 0) == 0);
        } else {
            assert(slots[i] == 0);
            assert(fmul(0, fsub(0, target)) == 0);
        }
    }
    lemma_slot_sum_is_tally(slots, target);
    lemma_padding_not_counted(votes, target, k);
    let tally = count_and_tally_of(votes, target).1;
    assert(fsub(tally, tally) == 0);
}

/// The tally is always the count times the target: only votes equal to the
/// target are counted, and each adds the target. With target 1 (a yes vote),
/// the tally is the number of yes votes.
pub proof fn lemma_tally_is_count_times_target(votes: Seq<nat>, target: nat)
    requires
        target < modulus(),
    ensures
        count_and_tally_of(votes, target).1 == fmul(count_and_tally_of(votes, target).0, target),
    decreases votes.len(),
{
    if votes.len() > 0 {
        let init = votes.drop_last();
        lemma_tally_is_count_times_target(init, target);
        let c = count_and_tally_of(init, target).0;
        if is_counted(votes.last(), target) {
            lemma_small_mod(target, modulus());
            lemma_add_mod_noop((c * target) as int, target as int, modulus() as int);
            lemma_mul_is_distributive_add_other_way(target as int, c as int, 1);
        }
    } else {
        assert(fmul(0, target) == 0);
    }
}

/// The gates determine the tally: whenever they hold, the tally column is
/// the field sum of the ten vote columns.
pub proof fn lemma_batch_tally_determined(slots: Seq<nat>, target: nat, tally: nat)
    requires
        tally < modulus(),
        batch_gates_hold(slots, target, tally),
    ensures
        tally == slot_sum(slots),
{
    lemma_slot_sum_reduced(slots);
    crate::field::lemma_fsub_zero_iff_equal(tally, slot_sum(slots));
}

/// The validity gate admits exactly an abstention or the target: for
/// reduced `v` and `target`, `v * (v - target) = 0` holds only for `v = 0`
/// and `v = target`.
pub proof fn lemma_slot_gate_exact(v: nat, target: nat)
    requires
        v < modulus(),
        target < modulus(),
    ensures
        slot_gate_holds(v, target) <==> (v == 0 || v == target),
{
    crate::field::lemma_fmul_zero_iff(v, fsub(v, target));
    crate::field::lemma_fsub_zero_iff_equal(v, target);
}

/// When the gates hold over reduced votes and target, every vote column is
/// an abstention or the target, and the tally is their sum.
pub proof fn lemma_batch_gates_sound(slots: Seq<nat>, target: nat, tally: nat)
    requires
        batch_gates_hold(slots, target, tally),
        tally < modulus(),
        target < modulus(),
        forall|i: int| 0 <= i < slots.len() ==> #[trigger] slots[i] < modulus(),
    ensures
        forall|i: int| 0 <= i < slots.len() ==> #[trigger] slots[i] == 0 || slots[i] == target,
        tally == slot_sum(slots),
{
    assert forall|i: int| 0 <= i < slots.len() implies #[trigger] slots[i] == 0 || slots[i] == target by {
        assert(slot_gate_holds(slots[i], target));
        lemma_slot_gate_exact(slots[i], target);
    }
    lemma_batch_tally_determined(slots, target, tally);
}

} // verus!
