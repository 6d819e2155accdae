//! Running yes/no tallies carried from one vote to the next, and the binary
//! vote gate shared by the tallying circuits.

use crate::field::{fadd, fmul, fsub, lemma_fadd_zero, lemma_fmul_zero_one, lemma_fsub_self, modulus, FieldElement};
use vstd::prelude::*;

verus! {

/// A running tally: total votes cast, yes votes and no votes.
#[derive(Clone, Copy, Debug, PartialEq, Eq)]
pub struct Tally {
    pub total: FieldElement,
    pub yes: FieldElement,
    pub no: FieldElement,
}

impl View for Tally {
    type V = (nat, nat, nat);

    open spec fn view(&self) -> (nat, nat, nat) {
        (self.total@, self.yes@, self.no@)
    }
}

impl Tally {
    /// The tally before any vote: all three counts zero.
    pub fn empty() -> (r: Self)
        ensures
            r@ == (0nat, 0nat, 0nat),
    {
        Tally { total: FieldElement::zero(), yes: FieldElement::zero(), no: FieldElement::zero() }
    }
}

/// Every count of a tally is a reduced field value.
pub open spec fn is_reduced(t: (nat, nat, nat)) -> bool {
    t.0 < modulus() && t.1 < modulus() && t.2 < modulus()
}

/// A tally is consistent when its yes and no votes add up to its total.
pub open spec fn is_consistent(t: (nat, nat, nat)) -> bool {
    fadd(t.1, t.2) == t.0
}

/// A vote is binary when it is 0 (no) or 1 (yes).
pub open spec fn is_binary(v: nat) -> bool {
    v == 0 || v == 1
}

/// The binary vote gate: `v * (v - 1) = 0`.
pub open spec fn binary_vote_gate_holds(v: nat) -> bool {
    fmul(v, fsub(v, 1)) == 0
}

/// How many entries of `votes` equal `value`.
pub open spec fn count_where(votes: Seq<nat>, value: nat) -> nat
    decreases votes.len(),
{
    if votes.len() == 0 {
        0
    } else {
        count_where(votes.drop_last(), value) + if votes.last() == value {
            1nat
        } else {
            0nat
        }
    }
}

/// Evaluates the binary vote gate.
pub fn check_binary_vote(v: &FieldElement) -> (ok: bool)
    ensures
        ok == binary_vote_gate_holds(v@),
{
    v.times(&v.minus(&FieldElement::one())).equals(&FieldElement::zero())
}

/// Both honest votes pass the binary gate.
pub proof fn lemma_binary_votes_pass(v: nat)
    requires
        is_binary(v),
    ensures
        binary_vote_gate_holds(v),
{
    lemma_fsub_self(1);
    lemma_fmul_zero_one(fsub(v, 1));
    lemma_fmul_zero_one(1);
}

/// No count exceeds the number of votes.
pub proof fn lemma_count_where_bounded(votes: Seq<nat>, value: nat)
    ensures
        count_where(votes, value) <= votes.len(),
    decreases votes.len(),
{
    if votes.len() > 0 {
        lemma_count_where_bounded(votes.drop_last(), value);
    }
}

/// Every binary vote is counted once, as a yes or as a no.
pub proof fn lemma_binary_counts_split(votes: Seq<nat>)
    requires
        forall|i: int| 0 <= i < votes.len() ==> is_binary(#[trigger] votes[i]),
    ensures
        count_where(votes, 1) + count_where(votes, 0) == votes.len(),
    decreases votes.len(),
{
    if votes.len() > 0 {
        let init = votes.drop_last();
        assert forall|i: int| 0 <= i < init.len() implies is_binary(#[trigger] init[i]) by {
            assert(init[i] == votes[i]);
        }
        lemma_binary_counts_split(init);
        assert(is_binary(votes[votes.len() - 1]));
    }
}

/// `1 - v` for a binary vote is the other binary value.
pub proof fn lemma_one_minus_binary(v: nat)
    requires
        is_binary(v),
    ensures
        fsub(1, v) == 1 - v,
{
    if v == 1 {
        lemma_fsub_self(1);
    } else {
        lemma_fadd_zero(1);
        vstd::arithmetic::div_mod::lemma_small_mod(1, modulus());
    }
}

/// The binary gate admits exactly the binary votes: for a reduced `v`,
/// `v * (v - 1) = 0` holds only for `v = 0` and `v = 1`.
pub proof fn lemma_binary_gate_exact(v: nat)
    requires
        v < modulus(),
    ensures
        binary_vote_gate_holds(v) <==> is_binary(v),
{
    vstd::arithmetic::div_mod::lemma_small_mod(1, modulus());
    crate::field::lemma_fmul_zero_iff(v, fsub(v, 1));
    crate::field::lemma_fsub_zero_iff_equal(v, 1);
}

} // verus!
