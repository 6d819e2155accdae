//! The "a + b = c" circuit. Its single active row holds the advice cells
//! `a`, `b`, `c`; its constraint enforces `a + b - c = 0` and, in the variant with a
//! public output, also `c - c_pub = 0` against the instance cell `c_pub`.

use crate::field::{fadd, fsub, lemma_fsub_zero_iff_equal, modulus, FieldElement};
use vstd::prelude::*;

verus! {

/// The gates of the circuit with a public output, on the active row.
pub open spec fn sum_gates_hold(a: nat, b: nat, c: nat, c_pub: nat) -> bool {
    &&& fsub(fadd(a, b), c) == 0
    &&& fsub(c, c_pub) == 0
}

/// The constraint of the circuit whose sum stays private, on the active row.
pub open spec fn private_sum_gate_holds(a: nat, b: nat, c: nat) -> bool {
    fsub(fadd(a, b), c) == 0
}

/// The witness that the prover assigns to the `c` cell: `a + b`.
pub fn sum_witness(a: &FieldElement, b: &FieldElement) -> (c: FieldElement)
    ensures
        c@ == fadd(a@, b@),
{
    a.plus(b)
}

/// The public instance that proving and verifying use for the inputs `a`
/// and `b`: `Fp::from(a) + Fp::from(b)`.
pub fn sum_instance(a: u64, b: u64) -> (c: FieldElement)
    ensures
        c@ == a as nat + b as nat,
{
    let fa = FieldElement::from_u64(a);
    let fb = FieldElement::from_u64(b);
    let c = fa.plus(&fb);
    proof {
        vstd::arithmetic::div_mod::lemma_small_mod(a as nat + b as nat, modulus());
    }
    c
}

/// Evaluates both gates of the circuit with a public output.
pub fn check_sum_gates(
    a: &FieldElement,
    b: &FieldElement,
    c: &FieldElement,
    c_pub: &FieldElement,
) -> (ok: bool)
    ensures
        ok == sum_gates_hold(a@, b@, c@, c_pub@),
{
    let zero = FieldElement::zero();
    let sum_check = a.plus(b).minus(c);
    let output_check = c.minus(c_pub);
    sum_check.equals(&zero) && output_check.equals(&zero)
}

/// Evaluates the constraint of the circuit whose sum stays private.
pub fn check_private_sum_gate(a: &FieldElement, b: &FieldElement, c: &FieldElement) -> (ok: bool)
    ensures
        ok == private_sum_gate_holds(a@, b@, c@),
{
    let zero = FieldElement::zero();
    a.plus(b).minus(c).equals(&zero)
}

/// The gates pin the row down: they hold exactly when `c` is the field sum of
/// `a` and `b` and the public output equals `c`.
pub proof fn lemma_sum_gates_exact(a: nat, b: nat, c: nat, c_pub: nat)
    requires
        c < modulus(),
        c_pub < modulus(),
    ensures
        sum_gates_hold(a, b, c, c_pub) <==> (c == fadd(a, b) && c_pub == c),
        private_sum_gate_holds(a, b, c) <==> c == fadd(a, b),
{
    lemma_fsub_zero_iff_equal(fadd(a, b), c);
    lemma_fsub_zero_iff_equal(c, c_pub);
}

/// An honest prover is accepted: for inputs `a` and `b`, the witness
/// `sum_witness` together with the instance `sum_instance` satisfies the gates.
pub proof fn lemma_sum_witness_accepted(a: u64, b: u64)
    ensures
        sum_gates_hold(a as nat, b as nat, fadd(a as nat, b as nat), a as nat + b as nat),
{
    vstd::arithmetic::div_mod::lemma_small_mod(a as nat + b as nat, modulus());
    lemma_sum_gates_exact(a as nat, b as nat, fadd(a as nat, b as nat), a as nat + b as nat);
}

} // verus!
