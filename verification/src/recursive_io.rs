//! What the recursive-vote prover and verifier exchange with their callers:
//! the vote byte, the previous tally as byte strings, the public outputs as a
//! 24-byte string, and the status codes of the pipeline.

use crate::chained_tally::{chained_circuit_accepts, chained_step, lemma_chained_witness_accepted};
use crate::field::{le_value, FieldElement};
use crate::tally::{is_binary, is_consistent, is_reduced, Tally};
use vstd::arithmetic::div_mod::lemma_small_mod;
use vstd::prelude::*;

verus! {

/// Length of the encoded public outputs: three 8-byte counts.
pub const PUBLIC_OUTPUTS_LEN: usize = 24;

/// Status code of a pipeline that succeeded.
pub const SUCCESS_CODE: i32 = 0;

/// Status code of a verification whose public outputs are shorter than
/// `PUBLIC_OUTPUTS_LEN` bytes.
pub const MALFORMED_OUTPUTS_CODE: i32 = 5;

/// The value that `parse_field_from_bytes` reads: the first byte, or zero for
/// an empty string.
pub open spec fn leading_byte_value(bytes: Seq<u8>) -> nat {
    if bytes.len() == 0 {
        0
    } else {
        bytes[0] as nat
    }
}

/// The eight bytes that `field_to_bytes` writes for a value: its lowest byte,
/// then seven zeros.
pub open spec fn count_bytes(value: nat) -> Seq<u8> {
    seq![(value % 256) as u8, 0u8, 0u8, 0u8, 0u8, 0u8, 0u8, 0u8]
}

/// The public outputs as the prover writes them: total, yes and no, eight
/// bytes each.
pub open spec fn encoded_outputs(t: (nat, nat, nat)) -> Seq<u8> {
    count_bytes(t.0) + count_bytes(t.1) + count_bytes(t.2)
}

/// The public outputs as the verifier reads them: nothing from fewer than 24
/// bytes, otherwise the value of each 8-byte chunk.
pub open spec fn decoded_outputs(bytes: Seq<u8>) -> Option<(nat, nat, nat)> {
    if bytes.len() < PUBLIC_OUTPUTS_LEN {
        None
    } else {
        Some(
            (
                leading_byte_value(bytes.subrange(0, 8)),
                leading_byte_value(bytes.subrange(8, 16)),
                leading_byte_value(bytes.subrange(16, 24)),
            ),
        )
    }
}

/// The vote that a vote byte stands for: 0 (no) for the zero byte, 1 (yes)
/// for any other.
pub open spec fn vote_of_byte(vote: u8) -> nat {
    if vote == 0 {
        0
    } else {
        1
    }
}

/// Reads a count from its byte string: the first byte, or zero when the
/// string is empty.
pub fn parse_field_from_bytes(bytes: &[u8]) -> (r: FieldElement)
    ensures
        r@ == leading_byte_value(bytes@),
{
    if bytes.len() == 0 {
        return FieldElement::zero();
    }
    FieldElement::from_u64(bytes[0] as u64)
}

/// Writes a count as eight bytes: the lowest byte of its canonical
/// representation, then seven zeros.
pub fn field_to_bytes(field: FieldElement) -> (r: [u8; 8])
    ensures
        r@ == count_bytes(field@),
        le_value(r@) == field@ % 256,
{
    let low = field.low_byte();
    let r = [low, 0u8, 0u8, 0u8, 0u8, 0u8, 0u8, 0u8];
    assert(r@ == count_bytes(field@));
    proof {
        lemma_count_bytes_value(field@);
    }
    r
}

/// The vote that the prover uses for a vote byte.
pub fn decode_vote(vote: u8) -> (r: FieldElement)
    ensures
        r@ == vote_of_byte(vote),
{
    if vote == 0 {
        FieldElement::zero()
    } else {
        FieldElement::one()
    }
}

/// Writes the public outputs of a tally.
pub fn encode_public_outputs(t: &Tally) -> (bytes: Vec<u8>)
    ensures
        bytes@ == encoded_outputs(t@),
        bytes@.len() == PUBLIC_OUTPUTS_LEN,
        le_value(bytes@.subrange(0, 8)) == t.total@ % 256,
        le_value(bytes@.subrange(8, 16)) == t.yes@ % 256,
        le_value(bytes@.subrange(16, 24)) == t.no@ % 256,
{
    proof {
        lemma_encoded_outputs_value(t@);
    }
    let mut bytes: Vec<u8> = Vec::new();
    let parts = [field_to_bytes(t.total), field_to_bytes(t.yes), field_to_bytes(t.no)];
    for k in 0..3
        invariant
            parts@.len() == 3,
            parts@[0]@ == count_bytes(t.total@),
            parts@[1]@ == count_bytes(t.yes@),
            parts@[2]@ == count_bytes(t.no@),
            bytes@ == (if k == 0 {
                Seq::<u8>::empty()
            } else if k == 1 {
                count_bytes(t.total@)
            } else if k == 2 {
                count_bytes(t.total@) + count_bytes(t.yes@)
            } else {
                encoded_outputs(t@)
            }),
    {
        let part = parts[k];
        let ghost before = bytes@;
        for i in 0..8
            invariant
                bytes@ == before + part@.take(i as int),
        {
            bytes.push(part[i]);
            assert(part@.take(i + 1) == part@.take(i as int).push(part@[i as int]));
        }
        assert(part@.take(8) == part@);
    }
    bytes
}

/// Eight bytes of which all but the first are zero denote the first byte.
proof fn lemma_le_value_zero_tail(s: Seq<u8>)
    requires
        s.len() >= 1,
        forall|j: int| 1 <= j < s.len() ==> s[j] == 0u8,
    ensures
        le_value(s) == s[0] as nat,
    decreases s.len(),
{
    let rest = s.drop_first();
    if rest.len() >= 1 {
        assert(rest[0] == s[1]);
        assert forall|j: int| 1 <= j < rest.len() implies rest[j] == 0u8 by {
            assert(rest[j] == s[j + 1]);
        }
        lemma_le_value_zero_tail(rest);
        assert(le_value(rest) == 0);
    } else {
        assert(le_value(rest) == 0);
    }
    assert(le_value(s) == s[0] as nat + 256 * le_value(rest));
}

/// A count is written as the little-endian `u64` of its lowest byte: the
/// eight bytes denote the count modulo 256.
pub proof fn lemma_count_bytes_value(value: nat)
    ensures
        count_bytes(value).len() == 8,
        le_value(count_bytes(value)) == value % 256,
{
    lemma_le_value_zero_tail(count_bytes(value));
}

/// The public outputs are 24 bytes: the total, yes and no counts, each the
/// little-endian `u64` of the count modulo 256.
pub proof fn lemma_encoded_outputs_value(t: (nat, nat, nat))
    ensures
        encoded_outputs(t).len() == PUBLIC_OUTPUTS_LEN,
        le_value(encoded_outputs(t).subrange(0, 8)) == t.0 % 256,
        le_value(encoded_outputs(t).subrange(8, 16)) == t.1 % 256,
        le_value(encoded_outputs(t).subrange(16, 24)) == t.2 % 256,
{
    let bytes = encoded_outputs(t);
    lemma_count_bytes_value(t.0);
    lemma_count_bytes_value(t.1);
    lemma_count_bytes_value(t.2);
    assert(bytes.subrange(0, 8) =~= count_bytes(t.0));
    assert(bytes.subrange(8, 16) =~= count_bytes(t.1));
    assert(bytes.subrange(16, 24) =~= count_bytes(t.2));
}

/// Reads the public outputs back: `None` when fewer than 24 bytes are given.
pub fn decode_public_outputs(bytes: &[u8]) -> (r: Option<Tally>)
    ensures
        match r {
            Some(t) => decoded_outputs(bytes@) == Some(t@),
            None => decoded_outputs(bytes@) is None,
        },
{
    if bytes.len() < PUBLIC_OUTPUTS_LEN {
        return None;
    }
    let total = FieldElement::from_u64(bytes[0] as u64);
    let yes = FieldElement::from_u64(bytes[8] as u64);
    let no = FieldElement::from_u64(bytes[16] as u64);
    assert(bytes@.subrange(0, 8)[0] == bytes@[0]);
    assert(bytes@.subrange(8, 16)[0] == bytes@[8]);
    assert(bytes@.subrange(16, 24)[0] == bytes@[16]);
    Some(Tally { total, yes, no })
}

/// What the prover does for one vote: the vote it proves, the previous tally
/// it reads, the new tally it publishes, and whether it carries the previous
/// proof into the circuit (only after a nonempty previous tally).
#[derive(Clone, Copy, Debug, PartialEq, Eq)]
pub struct RecursiveStep {
    pub vote: FieldElement,
    pub previous: Tally,
    pub next: Tally,
    pub carries_previous_proof: bool,
}

/// Plans one recursive vote from the caller's vote byte and previous counts.
pub fn plan_recursive_step(vote: u8, prev_total: &[u8], prev_yes: &[u8], prev_no: &[u8]) -> (step: RecursiveStep)
    ensures
        step.vote@ == vote_of_byte(vote),
        step.previous@ == (
            leading_byte_value(prev_total@),
            leading_byte_value(prev_yes@),
            leading_byte_value(prev_no@),
        ),
        step.next@ == chained_step(step.vote@, step.previous@),
        step.carries_previous_proof == (step.previous.total@ != 0),
{
    let v = decode_vote(vote);
    let previous = Tally {
        total: parse_field_from_bytes(prev_total),
        yes: parse_field_from_bytes(prev_yes),
        no: parse_field_from_bytes(prev_no),
    };
    let next = crate::chained_tally::chained_next_tally(&v, &previous);
    let carries_previous_proof = !previous.total.equals(&FieldElement::zero());
    RecursiveStep { vote: v, previous, next, carries_previous_proof }
}

/// The stages of the recursive prover and verifier, in order.
#[derive(Clone, Copy, Debug, PartialEq, Eq)]
pub enum PipelineStage {
    /// Building the commitment parameters for `2^k` rows.
    Parameters,
    /// Generating the verifying key.
    VerifyingKey,
    /// Generating the proving key.
    ProvingKey,
    /// Creating, or checking, the proof itself.
    Proof,
}

/// The status code reported when a stage fails.
pub open spec fn failure_code_of(stage: PipelineStage) -> i32 {
    match stage {
        PipelineStage::Parameters => 1,
        PipelineStage::VerifyingKey => 2,
        PipelineStage::ProvingKey => 3,
        PipelineStage::Proof => 4,
    }
}

/// The status code reported when `stage` fails.
pub fn failure_code(stage: PipelineStage) -> (code: i32)
    ensures
        code == failure_code_of(stage),
{
    match stage {
        PipelineStage::Parameters => 1,
        PipelineStage::VerifyingKey => 2,
        PipelineStage::ProvingKey => 3,
        PipelineStage::Proof => 4,
    }
}

/// What the verifier reads back is what the prover wrote, reduced to the
/// lowest byte of each count.
pub proof fn lemma_outputs_roundtrip(t: (nat, nat, nat))
    ensures
        decoded_outputs(encoded_outputs(t)) == Some((t.0 % 256, t.1 % 256, t.2 % 256)),
{
    let bytes = encoded_outputs(t);
    assert(bytes.subrange(0, 8)[0] == bytes[0]);
    assert(bytes.subrange(8, 16)[0] == bytes[8]);
    assert(bytes.subrange(16, 24)[0] == bytes[16]);
}

/// Outputs that an honest prover publishes are accepted by the verifier's
/// reading of them, as long as every count stays below 256: the bytes decode
/// to the new tally, and the vote row with that tally as instances satisfies
/// every constraint.
pub proof fn lemma_published_outputs_accepted(vote: nat, prev: (nat, nat, nat))
    requires
        is_binary(vote),
        is_reduced(prev),
        is_consistent(prev),
        chained_step(vote, prev).0 < 256,
        chained_step(vote, prev).1 < 256,
        chained_step(vote, prev).2 < 256,
    ensures
        decoded_outputs(encoded_outputs(chained_step(vote, prev))) == Some(chained_step(vote, prev)),
        chained_circuit_accepts(vote, prev, chained_step(vote, prev), chained_step(vote, prev)),
{
    let next = chained_step(vote, prev);
    lemma_outputs_roundtrip(next);
    lemma_small_mod(next.0, 256);
    lemma_small_mod(next.1, 256);
    lemma_small_mod(next.2, 256);
    lemma_chained_witness_accepted(vote, prev);
}

} // verus!
