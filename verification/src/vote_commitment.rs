//! The private-vote circuit with a Poseidon commitment. The prover holds the
//! vote bit `v` privately; the public instances are the claimed tally
//! increment `t` and the commitment `h = Poseidon(v)`. Both the public and the
//! private input are reduced mod 2 before they enter the circuit, whose
//! constraints enforce `v * (v - 1) = 0` (the vote is boolean) and `v - t = 0`.
//! The commitment travels as a public input and as 32 canonical bytes.

use crate::field::{fsub, le_value, lemma_fsub_zero_iff_equal, modulus, poseidon_hash_one, FieldElement};
use crate::tally::{binary_vote_gate_holds, check_binary_vote, is_binary, lemma_binary_votes_pass};
use vstd::prelude::*;

verus! {

/// Length of an encoded commitment: one canonical field representation.
pub const COMMITMENT_LEN: usize = 32;

/// The two public instances of the circuit: the claimed tally and the
/// commitment to the vote.
#[derive(Clone, Copy, Debug, PartialEq, Eq)]
pub struct VoteInstances {
    pub tally: FieldElement,
    pub commitment: FieldElement,
}

/// The constraints of the circuit on its active row: the private vote is
/// boolean, and it equals the public tally increment.
pub open spec fn vote_gate_holds(v: nat, t: nat) -> bool {
    &&& binary_vote_gate_holds(v)
    &&& fsub(v, t) == 0
}

/// The commitment that a byte string denotes, if it is one: exactly 32 bytes
/// whose little-endian value lies below the modulus.
pub open spec fn commitment_decoding(bytes: Seq<u8>) -> Option<nat> {
    if bytes.len() == COMMITMENT_LEN && le_value(bytes) < modulus() {
        Some(le_value(bytes))
    } else {
        None
    }
}

/// The instances that the prover publishes for public tally `t_public` and
/// private vote `v_private`, both reduced mod 2: `t = Fp::from(t_public % 2)`
/// and `h = Poseidon(Fp::from(v_private % 2))`.
pub fn vote_instances(t_public: u64, v_private: u64) -> (r: VoteInstances)
    ensures
        r.tally@ == t_public as nat % 2,
        r.commitment@ == poseidon_hash_one(v_private as nat % 2),
{
    let v = vote_witness(v_private);
    VoteInstances { tally: FieldElement::from_u64(t_public % 2), commitment: v.poseidon_hash() }
}

/// The private witness of the circuit: the vote reduced mod 2, as a field
/// element.
pub fn vote_witness(v_private: u64) -> (v: FieldElement)
    ensures
        v@ == v_private as nat % 2,
{
    FieldElement::from_u64(v_private % 2)
}

/// Evaluates both constraints of the circuit.
pub fn check_vote_gate(v: &FieldElement, t: &FieldElement) -> (ok: bool)
    ensures
        ok == vote_gate_holds(v@, t@),
{
    check_binary_vote(v) && v.minus(t).equals(&FieldElement::zero())
}

/// The 32 bytes under which a commitment leaves the prover: its canonical
/// little-endian representation.
pub fn commitment_bytes(h: &FieldElement) -> (bytes: Vec<u8>)
    ensures
        bytes@.len() == COMMITMENT_LEN,
        le_value(bytes@) == h@,
{
    let repr = h.to_repr();
    let mut bytes: Vec<u8> = Vec::new();
    for i in 0..32
        invariant
            bytes@ == repr@.take(i as int),
    {
        bytes.push(repr[i]);
        assert(repr@.take(i + 1) == repr@.take(i as int).push(repr@[i as int]));
    }
    assert(repr@.take(32) == repr@);
    bytes
}

/// Reads a commitment back from bytes: refuses anything but 32 bytes whose
/// little-endian value is below the modulus.
pub fn decode_commitment(bytes: &[u8]) -> (r: Option<FieldElement>)
    ensures
        match r {
            Some(h) => commitment_decoding(bytes@) == Some(h@),
            None => commitment_decoding(bytes@) is None,
        },
{
    if bytes.len() != COMMITMENT_LEN {
        return None;
    }
    let mut repr = [0u8; 32];
    for i in 0..32
        invariant
            bytes@.len() == 32,
            repr@.len() == 32,
            forall|j: int| 0 <= j < i ==> repr@[j] == bytes@[j],
    {
        repr[i] = bytes[i];
    }
    assert(repr@ == bytes@);
    FieldElement::from_repr(repr)
}

/// The public instances that verification uses: the tally
/// `Fp::from(t_public % 2)`
/// and the commitment read from `h_bytes`; `None` when `h_bytes` is no valid
/// commitment (the verifier then reports failure without checking the proof).
pub fn verification_instances(t_public: u64, h_bytes: &[u8]) -> (r: Option<VoteInstances>)
    ensures
        r is Some <==> commitment_decoding(h_bytes@) is Some,
        r matches Some(inst) ==> {
            &&& inst.tally@ == t_public as nat % 2
            &&& commitment_decoding(h_bytes@) == Some(inst.commitment@)
        },
{
    match decode_commitment(h_bytes) {
        Some(h) => Some(VoteInstances { tally: FieldElement::from_u64(t_public % 2), commitment: h }),
        None => None,
    }
}

/// For the private and public inputs as the prover and verifier reduce them,
/// the constraints accept exactly when the two inputs agree mod 2.
pub proof fn lemma_vote_gate_exact(v_private: u64, t_public: u64)
    ensures
        vote_gate_holds(v_private as nat % 2, t_public as nat % 2) <==> v_private % 2 == t_public % 2,
{
    lemma_binary_votes_pass(v_private as nat % 2);
    lemma_fsub_zero_iff_equal(v_private as nat % 2, t_public as nat % 2);
}

/// On reduced field values the constraints accept exactly a boolean vote
/// equal to the tally.
pub proof fn lemma_vote_gate_field_values(v: nat, t: nat)
    requires
        v < modulus(),
        t < modulus(),
    ensures
        vote_gate_holds(v, t) <==> (is_binary(v) && v == t),
{
    crate::tally::lemma_binary_gate_exact(v);
    lemma_fsub_zero_iff_equal(v, t);
}

/// A commitment survives its encoding: bytes that encode `h` (32 of them,
/// denoting `h`) decode to `h`.
pub proof fn lemma_commitment_roundtrip(h: nat, bytes: Seq<u8>)
    requires
        h < modulus(),
        bytes.len() == COMMITMENT_LEN,
        le_value(bytes) == h,
    ensures
        commitment_decoding(bytes) == Some(h),
{
}

} // verus!
