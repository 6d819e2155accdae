//! The democratic tallying circuit that takes an explicit "first vote" flag.
//! One row holds the current vote, the previous tally, the flag and the new
//! tally; the new tally is exposed as the three public instances (total, yes,
//! no). The gates demand a binary vote and, blended by the flag `f`,
//!
//! * `f * (new - start) + (1 - f) * (new - prev - step) = 0`
//!
//! for each count, where a first vote starts the tally at `(1, v, 1 - v)` and
//! a later vote adds `(1, v, 1 - v)` to the previous tally.

use crate::field::{
    fadd, fmul, fsub, lemma_fadd_zero, lemma_fmul_zero_one, lemma_fsub_eq_iff, lemma_fsub_self,
    modulus, FieldElement,
};
use crate::tally::{
    binary_vote_gate_holds, check_binary_vote, count_where, is_binary, is_consistent, is_reduced,
    lemma_binary_counts_split, lemma_count_where_bounded, lemma_one_minus_binary, Tally,
};
use crate::chained_tally::{chained_step, lemma_chained_step_consistent};
use vstd::arithmetic::div_mod::{lemma_add_mod_noop, lemma_small_mod};
use vstd::prelude::*;

verus! {

/// The flag as the field value that the circuit assigns to its cell.
pub open spec fn flag_value(is_first: bool) -> nat {
    if is_first {
        1
    } else {
        0
    }
}

/// The tally after `vote`: a first vote starts at `(1, v, 1 - v)`, a later
/// one adds `(1, v, 1 - v)` to `prev`.
pub open spec fn flagged_step(vote: nat, prev: (nat, nat, nat), is_first: bool) -> (nat, nat, nat) {
    if is_first {
        (1, vote, fsub(1, vote))
    } else {
        (fadd(prev.0, 1), fadd(prev.1, vote), fadd(prev.2, fsub(1, vote)))
    }
}

/// The three aggregation gates for flag value `f`.
pub open spec fn flagged_gates_hold(vote: nat, prev: (nat, nat, nat), f: nat, next: (nat, nat, nat)) -> bool {
    &&& fadd(fmul(f, fsub(next.0, 1)), fmul(fsub(1, f), fsub(fsub(next.0, prev.0), 1))) == 0
    &&& fadd(fmul(f, fsub(next.1, vote)), fmul(fsub(1, f), fsub(fsub(next.1, prev.1), vote))) == 0
    &&& fadd(fmul(f, fsub(next.2, fsub(1, vote))), fmul(fsub(1, f), fsub(fsub(next.2, prev.2), fsub(1, vote))))
        == 0
}

/// Every constraint of the circuit: the binary vote gate, the aggregation
/// gates, and the public instances equal to the new tally.
pub open spec fn flagged_circuit_accepts(
    vote: nat,
    prev: (nat, nat, nat),
    is_first: bool,
    next: (nat, nat, nat),
    instances: (nat, nat, nat),
) -> bool {
    &&& binary_vote_gate_holds(vote)
    &&& flagged_gates_hold(vote, prev, flag_value(is_first), next)
    &&& next == instances
}

/// The tally after a whole sequence of votes, the first one flagged.
pub open spec fn flagged_chain(votes: Seq<nat>) -> (nat, nat, nat)
    decreases votes.len(),
{
    if votes.len() == 0 {
        (0, 0, 0)
    } else {
        flagged_step(votes.last(), flagged_chain(votes.drop_last()), votes.len() == 1)
    }
}

/// The new tally that the prover assigns for `vote` after `prev`.
pub fn flagged_next_tally(vote: &FieldElement, prev: &Tally, is_first: bool) -> (next: Tally)
    ensures
        next@ == flagged_step(vote@, prev@, is_first),
{
    let one = FieldElement::one();
    let against = one.minus(vote);
    if is_first {
        Tally { total: one, yes: *vote, no: against }
    } else {
        Tally { total: prev.total.plus(&one), yes: prev.yes.plus(vote), no: prev.no.plus(&against) }
    }
}

/// Evaluates every constraint of the circuit on one row and its instances.
pub fn check_flagged_circuit(
    vote: &FieldElement,
    prev: &Tally,
    is_first: bool,
    next: &Tally,
    instances: &Tally,
) -> (ok: bool)
    ensures
        ok == flagged_circuit_accepts(vote@, prev@, is_first, next@, instances@),
{
    let f = if is_first {
        FieldElement::one()
    } else {
        FieldElement::zero()
    };
    let binary = check_binary_vote(vote);
    let aggregated = check_flagged_gates(vote, prev, &f, next);
    let exposed = next.total.equals(&instances.total) && next.yes.equals(&instances.yes)
        && next.no.equals(&instances.no);
    binary && aggregated && exposed
}

/// Evaluates the three aggregation gates with the flag cell holding `flag`,
/// whatever field value that is.
pub fn check_flagged_gates(vote: &FieldElement, prev: &Tally, flag: &FieldElement, next: &Tally) -> (ok: bool)
    ensures
        ok == flagged_gates_hold(vote@, prev@, flag@, next@),
{
    let zero = FieldElement::zero();
    let one = FieldElement::one();
    let not_f = one.minus(flag);
    let against = one.minus(vote);
    let count_gate = flag.times(&next.total.minus(&one)).plus(
        &not_f.times(&next.total.minus(&prev.total).minus(&one)),
    );
    let yes_gate = flag.times(&next.yes.minus(vote)).plus(
        &not_f.times(&next.yes.minus(&prev.yes).minus(vote)),
    );
    let no_gate = flag.times(&next.no.minus(&against)).plus(
        &not_f.times(&next.no.minus(&prev.no).minus(&against)),
    );
    count_gate.equals(&zero) && yes_gate.equals(&zero) && no_gate.equals(&zero)
}

/// The flagged blend of two gate polynomials reduces to the first when the
/// flag is set and to the second when it is clear.
proof fn lemma_blend(is_first: bool, a: nat, b: nat)
    requires
        a < modulus(),
        b < modulus(),
    ensures
        fadd(fmul(flag_value(is_first), a), fmul(fsub(1, flag_value(is_first)), b)) == if is_first {
            a
        } else {
            b
        },
{
    lemma_fsub_self(1);
    lemma_fadd_zero(1);
    lemma_small_mod(1, modulus());
    lemma_fmul_zero_one(a);
    lemma_fmul_zero_one(b);
    lemma_fadd_zero(a);
    lemma_fadd_zero(b);
}

/// The aggregation gates determine the new tally: on reduced values they hold
/// exactly when `next` is `flagged_step(vote, prev, is_first)`.
pub proof fn lemma_flagged_gates_exact(vote: nat, prev: (nat, nat, nat), is_first: bool, next: (nat, nat, nat))
    requires
        vote < modulus(),
        is_reduced(prev),
        is_reduced(next),
    ensures
        flagged_gates_hold(vote, prev, flag_value(is_first), next) <==> next == flagged_step(vote, prev, is_first),
{
    let against = fsub(1, vote);
    lemma_blend(is_first, fsub(next.0, 1), fsub(fsub(next.0, prev.0), 1));
    lemma_blend(is_first, fsub(next.1, vote), fsub(fsub(next.1, prev.1), vote));
    lemma_blend(is_first, fsub(next.2, against), fsub(fsub(next.2, prev.2), against));
    if is_first {
        lemma_fsub_eq_iff(next.0, 1, 0);
        lemma_fsub_eq_iff(next.1, vote, 0);
        lemma_fsub_eq_iff(next.2, against, 0);
        lemma_fadd_zero(1);
        lemma_fadd_zero(vote);
        lemma_fadd_zero(against);
    } else {
        lemma_fsub_eq_iff(fsub(next.0, prev.0), 1, 0);
        lemma_fsub_eq_iff(fsub(next.1, prev.1), vote, 0);
        lemma_fsub_eq_iff(fsub(next.2, prev.2), against, 0);
        lemma_fadd_zero(1);
        lemma_fadd_zero(vote);
        lemma_fadd_zero(against);
        lemma_fsub_eq_iff(next.0, prev.0, 1);
        lemma_fsub_eq_iff(next.1, prev.1, vote);
        lemma_fsub_eq_iff(next.2, prev.2, against);
    }
}

/// An honest prover is accepted: for a binary vote, the tally from
/// `flagged_next_tally`, published as the instances, satisfies every
/// constraint.
pub proof fn lemma_flagged_witness_accepted(vote: nat, prev: (nat, nat, nat), is_first: bool)
    requires
        is_binary(vote),
        is_reduced(prev),
    ensures
        flagged_circuit_accepts(vote, prev, is_first, flagged_step(vote, prev, is_first), flagged_step(vote, prev, is_first)),
{
    crate::tally::lemma_binary_votes_pass(vote);
    lemma_small_mod(1, modulus());
    lemma_flagged_gates_exact(vote, prev, is_first, flagged_step(vote, prev, is_first));
}

/// Each vote keeps a tally consistent: if `yes + no = total` before (or the
/// vote is the first), it holds after.
pub proof fn lemma_flagged_step_consistent(vote: nat, prev: (nat, nat, nat), is_first: bool)
    requires
        is_binary(vote),
        is_first || is_consistent(prev),
    ensures
        is_consistent(flagged_step(vote, prev, is_first)),
{
    if is_first {
        lemma_one_minus_binary(vote);
        lemma_small_mod(1, modulus());
    } else {
        assert(flagged_step(vote, prev, false) == chained_step(vote, prev));
        lemma_chained_step_consistent(vote, prev);
    }
}

/// Tallying a chain of binary votes, the first flagged, counts them: the
/// total is the number of votes, yes the number of ones, no the number of
/// zeros.
pub proof fn lemma_flagged_chain_counts(votes: Seq<nat>)
    requires
        votes.len() < modulus(),
        forall|i: int| 0 <= i < votes.len() ==> is_binary(#[trigger] votes[i]),
    ensures
        flagged_chain(votes) == (votes.len(), count_where(votes, 1), count_where(votes, 0)),
    decreases votes.len(),
{
    if votes.len() > 0 {
        let init = votes.drop_last();
        let v = votes.last();
        assert(is_binary(votes[votes.len() - 1]));
        assert forall|i: int| 0 <= i < init.len() implies is_binary(#[trigger] init[i]) by {
            assert(init[i] == votes[i]);
        }
        lemma_flagged_chain_counts(init);
        lemma_one_minus_binary(v);
        lemma_binary_counts_split(votes);
        lemma_count_where_bounded(votes, 1);
        lemma_count_where_bounded(votes, 0);
        if votes.len() == 1 {
            assert(init.len() == 0);
        } else {
            lemma_small_mod(init.len() + 1, modulus());
            lemma_small_mod(count_where(votes, 1), modulus());
            lemma_small_mod(count_where(votes, 0), modulus());
        }
    }
}

/// The tally that the aggregation gates admit when the flag cell holds an
/// arbitrary field value `f` (the circuit does not constrain that cell): each
/// count is its start value plus `(1 - f)` times the previous count.
pub open spec fn flag_blend_step(vote: nat, prev: (nat, nat, nat), f: nat) -> (nat, nat, nat) {
    let keep = fsub(1, f);
    (fadd(1, fmul(keep, prev.0)), fadd(vote, fmul(keep, prev.1)), fadd(fsub(1, vote), fmul(keep, prev.2)))
}

/// One blended gate polynomial, `f * (n - a) + (1 - f) * ((n - q) - a)`,
/// equals `n - (a + (1 - f) * q)`.
proof fn lemma_blended_gate(f: nat, n: nat, a: nat, q: nat)
    requires
        f < modulus(),
        n < modulus(),
        a < modulus(),
        q < modulus(),
    ensures
        fadd(fmul(f, fsub(n, a)), fmul(fsub(1, f), fsub(fsub(n, q), a))) == fsub(n, fadd(a, fmul(fsub(1, f), q))),
{
    let m = modulus() as int;
    let (fi, ni, ai, qi) = (f as int, n as int, a as int, q as int);
    lemma_small_mod(a, modulus());
    lemma_small_mod(q, modulus());
    lemma_small_mod(f, modulus());
    // f * (n - a)
    vstd::arithmetic::div_mod::lemma_mul_mod_noop_right(fi, ni - ai, m);
    assert(fmul(f, fsub(n, a)) as int == (fi * (ni - ai)) % m);
    // (n - q) - a
    vstd::arithmetic::div_mod::lemma_sub_mod_noop(ni - qi, ai, m);
    assert(fsub(fsub(n, q), a) as int == (ni - qi - ai) % m);
    // (1 - f) * ((n - q) - a)
    vstd::arithmetic::div_mod::lemma_mul_mod_noop(1 - fi, ni - qi - ai, m);
    assert(fmul(fsub(1, f), fsub(fsub(n, q), a)) as int == ((1 - fi) * (ni - qi - ai)) % m);
    // the sum
    lemma_add_mod_noop(fi * (ni - ai), (1 - fi) * (ni - qi - ai), m);
    let lhs_expr = fi * (ni - ai) + (1 - fi) * (ni - qi - ai);
    assert(fadd(fmul(f, fsub(n, a)), fmul(fsub(1, f), fsub(fsub(n, q), a))) as int == lhs_expr % m);
    // (1 - f) * q
    vstd::arithmetic::div_mod::lemma_mul_mod_noop_left(1 - fi, qi, m);
    assert(fmul(fsub(1, f), q) as int == ((1 - fi) * qi) % m);
    // a + (1 - f) * q
    vstd::arithmetic::div_mod::lemma_add_mod_noop_right(ai, (1 - fi) * qi, m);
    assert(fadd(a, fmul(fsub(1, f), q)) as int == (ai + (1 - fi) * qi) % m);
    // n - (a + (1 - f) * q)
    vstd::arithmetic::div_mod::lemma_sub_mod_noop_right(ni, ai + (1 - fi) * qi, m);
    let rhs_expr = ni - (ai + (1 - fi) * qi);
    assert(fsub(n, fadd(a, fmul(fsub(1, f), q))) as int == rhs_expr % m);
    assert(fi * (ni - ai) + (1 - fi) * (ni - qi - ai) == ni - (ai + (1 - fi) * qi)) by (nonlinear_arith);
    assert(lhs_expr == rhs_expr);
}

/// Whatever field value the flag cell holds, the aggregation gates determine
/// the new tally: on reduced values they hold exactly when `next` is
/// `flag_blend_step(vote, prev, f)`. A flag of 1 or 0 gives the first-vote
/// and the later-vote tally; any other flag value scales the previous tally
/// by `1 - f`.
pub proof fn lemma_flag_cell_gates_exact(vote: nat, prev: (nat, nat, nat), f: nat, next: (nat, nat, nat))
    requires
        vote < modulus(),
        f < modulus(),
        is_reduced(prev),
        is_reduced(next),
    ensures
        flagged_gates_hold(vote, prev, f, next) <==> next == flag_blend_step(vote, prev, f),
        flag_blend_step(vote, prev, 1) == flagged_step(vote, prev, true),
        flag_blend_step(vote, prev, 0) == flagged_step(vote, prev, false),
{
    let against = fsub(1, vote);
    let keep = fsub(1, f);
    lemma_blended_gate(f, next.0, 1, prev.0);
    lemma_blended_gate(f, next.1, vote, prev.1);
    lemma_blended_gate(f, next.2, against, prev.2);
    crate::field::lemma_fsub_zero_iff_equal(next.0, fadd(1, fmul(keep, prev.0)));
    crate::field::lemma_fsub_zero_iff_equal(next.1, fadd(vote, fmul(keep, prev.1)));
    crate::field::lemma_fsub_zero_iff_equal(next.2, fadd(against, fmul(keep, prev.2)));
    // the two honest flag values
    lemma_fsub_self(1);
    lemma_fadd_zero(1);
    lemma_small_mod(1, modulus());
    lemma_fmul_zero_one(prev.0);
    lemma_fmul_zero_one(prev.1);
    lemma_fmul_zero_one(prev.2);
    lemma_fadd_zero(vote);
    lemma_fadd_zero(against);
    assert(fsub(1, 0) == 1);
    vstd::arithmetic::div_mod::lemma_add_mod_noop(1, prev.0 as int, modulus() as int);
    assert(fadd(1, prev.0) == fadd(prev.0, 1));
    assert(fadd(vote, prev.1) == fadd(prev.1, vote));
    assert(fadd(against, prev.2) == fadd(prev.2, against));
}

/// On reduced cells the circuit's constraints accept exactly a binary vote,
/// with `flagged_step` as the new tally and as the public instances.
pub proof fn lemma_flagged_circuit_exact(
    vote: nat,
    prev: (nat, nat, nat),
    is_first: bool,
    next: (nat, nat, nat),
    instances: (nat, nat, nat),
)
    requires
        vote < modulus(),
        is_reduced(prev),
        is_reduced(next),
    ensures
        flagged_circuit_accepts(vote, prev, is_first, next, instances) <==> {
            &&& is_binary(vote)
            &&& next == flagged_step(vote, prev, is_first)
            &&& instances == next
        },
{
    crate::tally::lemma_binary_gate_exact(vote);
    lemma_flagged_gates_exact(vote, prev, is_first, next);
}

} // verus!
