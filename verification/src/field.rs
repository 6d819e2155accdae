//! Elements of the Pallas base field, held as their canonical little-endian
//! representation; the arithmetic itself is carried out by `pasta_curves`.

use halo2_gadgets::poseidon::primitives::{ConstantLength, P128Pow5T3};
use pasta_curves::group::ff::PrimeField;
use pasta_curves::Fp;
use vstd::arithmetic::div_mod::*;
use vstd::prelude::*;

verus! {

/// The order `p` of the Pallas base field.
pub open spec fn modulus() -> nat {
    0x40000000000000000000000000000000224698fc094cf91b992d30ed00000001nat
}

/// The number that a little-endian byte string denotes.
pub open spec fn le_value(bytes: Seq<u8>) -> nat
    decreases bytes.len(),
{
    if bytes.len() == 0 {
        0
    } else {
        bytes[0] as nat + 256 * le_value(bytes.drop_first())
    }
}

/// The Poseidon hash (width 3, rate 2, 8 full and 56 partial rounds, `x^5`
/// S-box, constant-length domain of one element) of a single field element.
pub uninterp spec fn poseidon_hash_one(input: nat) -> nat;

/// The field values of a sequence of elements.
pub open spec fn values(xs: Seq<FieldElement>) -> Seq<nat> {
    xs.map_values(|x: FieldElement| x@)
}

/// Field addition on canonical values.
pub open spec fn fadd(a: nat, b: nat) -> nat {
    (a + b) % modulus()
}

/// Field subtraction on canonical values.
pub open spec fn fsub(a: nat, b: nat) -> nat {
    ((a as int - b as int) % (modulus() as int)) as nat
}

/// Field multiplication on canonical values.
pub open spec fn fmul(a: nat, b: nat) -> nat {
    (a * b) % modulus()
}

/// An element of the Pallas base field, stored as the 32-byte canonical
/// representation that `PrimeField::to_repr` produces.
#[derive(Clone, Copy, Debug, PartialEq, Eq)]
pub struct FieldElement {
    repr: [u8; 32],
}

impl View for FieldElement {
    type V = nat;

    closed spec fn view(&self) -> nat {
        le_value(self.repr@)
    }
}

impl FieldElement {
    /// Every element is reduced: its value lies below the modulus.
    #[verifier::type_invariant]
    pub open spec fn is_canonical(&self) -> bool {
        self@ < modulus()
    }

    /// The element whose value is `x`.
    pub fn from_u64(x: u64) -> (r: Self)
        ensures
            r@ == x as nat,
    {
        fp_from_u64(x)
    }

    /// The additive identity.
    pub fn zero() -> (r: Self)
        ensures
            r@ == 0,
    {
        fp_from_u64(0)
    }

    /// The multiplicative identity.
    pub fn one() -> (r: Self)
        ensures
            r@ == 1,
    {
        fp_from_u64(1)
    }

    /// The sum, reduced modulo `p`.
    pub fn plus(&self, other: &Self) -> (r: Self)
        ensures
            r@ == fadd(self@, other@),
    {
        fp_add(self, other)
    }

    /// The difference, reduced modulo `p`.
    pub fn minus(&self, other: &Self) -> (r: Self)
        ensures
            r@ == fsub(self@, other@),
    {
        fp_sub(self, other)
    }

    /// The product, reduced modulo `p`.
    pub fn times(&self, other: &Self) -> (r: Self)
        ensures
            r@ == fmul(self@, other@),
    {
        fp_mul(self, other)
    }

    /// Whether the two elements are the same.
    pub fn equals(&self, other: &Self) -> (r: bool)
        ensures
            r == (self@ == other@),
    {
        let mut i: usize = 0;
        while i < 32
            invariant
                i <= 32,
                forall|j: int| 0 <= j < i ==> self.repr[j] == other.repr[j],
            decreases 32 - i,
        {
            if self.repr[i] != other.repr[i] {
                proof {
                    if self@ == other@ {
                        lemma_le_value_injective(self.repr@, other.repr@);
                    }
                }
                return false;
            }
            i += 1;
        }
        assert(self.repr@ =~= other.repr@);
        true
    }

    /// Reads a little-endian representation, refusing one that is not below
    /// the modulus.
    pub fn from_repr(bytes: [u8; 32]) -> (r: Option<Self>)
        ensures
            r is Some <==> le_value(bytes@) < modulus(),
            r matches Some(x) ==> x@ == le_value(bytes@),
    {
        fp_from_repr(bytes)
    }

    /// The Poseidon hash (width 3, rate 2, constant-length domain) of this
    /// single element.
    pub fn poseidon_hash(&self) -> (r: Self)
        ensures
            r@ == poseidon_hash_one(self@),
    {
        fp_poseidon_hash(self)
    }

    /// The canonical little-endian representation.
    pub fn to_repr(&self) -> (r: [u8; 32])
        ensures
            le_value(r@) == self@,
    {
        self.repr
    }

    /// The lowest byte of the canonical representation.
    pub fn low_byte(&self) -> (r: u8)
        ensures
            r as nat == self@ % 256,
    {
        proof {
            lemma_le_value_low_byte(self.repr@);
        }
        self.repr[0]
    }
}

/// `<Fp as From<u64>>::from`: the element whose value is `x` (every `u64` lies
/// below the modulus).
#[verifier::external_body]
fn fp_from_u64(x: u64) -> (r: FieldElement)
    ensures
        r@ == x as nat,
{
    FieldElement { repr: Fp::from(x).to_repr() }
}

/// `Fp + Fp`: the sum reduced modulo `p`.
#[verifier::external_body]
fn fp_add(a: &FieldElement, b: &FieldElement) -> (r: FieldElement)
    ensures
        r@ == fadd(a@, b@),
{
    let x = Fp::from_repr(a.repr).unwrap();
    let y = Fp::from_repr(b.repr).unwrap();
    FieldElement { repr: (x + y).to_repr() }
}

/// `Fp - Fp`: the difference reduced modulo `p`.
#[verifier::external_body]
fn fp_sub(a: &FieldElement, b: &FieldElement) -> (r: FieldElement)
    ensures
        r@ == fsub(a@, b@),
{
    let x = Fp::from_repr(a.repr).unwrap();
    let y = Fp::from_repr(b.repr).unwrap();
    FieldElement { repr: (x - y).to_repr() }
}

/// `Fp * Fp`: the product reduced modulo `p`.
#[verifier::external_body]
fn fp_mul(a: &FieldElement, b: &FieldElement) -> (r: FieldElement)
    ensures
        r@ == fmul(a@, b@),
{
    let x = Fp::from_repr(a.repr).unwrap();
    let y = Fp::from_repr(b.repr).unwrap();
    FieldElement { repr: (x * y).to_repr() }
}

/// `Fp::from_repr`: reads four little-endian 64-bit limbs and refuses a value
/// that is not below the modulus.
#[verifier::external_body]
fn fp_from_repr(bytes: [u8; 32]) -> (r: Option<FieldElement>)
    ensures
        r is Some <==> le_value(bytes@) < modulus(),
        r matches Some(x) ==> x@ == le_value(bytes@),
{
    match Option::<Fp>::from(Fp::from_repr(bytes)) {
        Some(f) => Some(FieldElement { repr: f.to_repr() }),
        None => None,
    }
}

/// `halo2_poseidon::Hash::<Fp, P128Pow5T3, ConstantLength<1>, 3, 2>::hash` of
/// one element. `P128Pow5T3` is Poseidon with 8 full and 56 partial rounds, the
/// `x^5` S-box and the constants that `generate_constants` yields for the first
/// secure MDS matrix (the crate's own test checks its hard-coded constants
/// against them). The result is named, not described.
#[verifier::external_body]
fn fp_poseidon_hash(a: &FieldElement) -> (r: FieldElement)
    ensures
        r@ == poseidon_hash_one(a@),
{
    let x = Fp::from_repr(a.repr).unwrap();
    let h = halo2_gadgets::poseidon::primitives::Hash::<Fp, P128Pow5T3, ConstantLength<1>, 3, 2>::init().hash([x]);
    FieldElement { repr: h.to_repr() }
}

/// The lowest byte of a little-endian string is its value modulo 256.
pub proof fn lemma_le_value_low_byte(bytes: Seq<u8>)
    requires
        bytes.len() > 0,
    ensures
        le_value(bytes) % 256 == bytes[0] as nat,
{
    let rest = le_value(bytes.drop_first());
    lemma_mod_multiples_vanish(rest as int, bytes[0] as int, 256);
    lemma_small_mod(bytes[0] as nat, 256);
}

/// Little-endian strings of one length that denote the same number are equal.
pub proof fn lemma_le_value_injective(a: Seq<u8>, b: Seq<u8>)
    requires
        a.len() == b.len(),
        le_value(a) == le_value(b),
    ensures
        a == b,
    decreases a.len(),
{
    if a.len() > 0 {
        lemma_le_value_low_byte(a);
        lemma_le_value_low_byte(b);
        lemma_le_value_injective(a.drop_first(), b.drop_first());
        assert(a =~= b) by {
            assert forall|j: int| 0 <= j < a.len() implies a[j] == b[j] by {
                if j > 0 {
                    assert(a[j] == a.drop_first()[j - 1]);
                    assert(b[j] == b.drop_first()[j - 1]);
                }
            }
        }
    } else {
        assert(a =~= b);
    }
}

/// Two reduced values differ by a multiple of `p` only when they are equal.
pub proof fn lemma_fsub_zero_iff_equal(a: nat, b: nat)
    requires
        a < modulus(),
        b < modulus(),
    ensures
        (fsub(a, b) == 0) <==> (a == b),
{
    let p = modulus() as int;
    let d = a as int - b as int;
    if d >= 0 {
        lemma_small_mod(d as nat, p as nat);
    } else {
        lemma_mod_add_multiples_vanish(d, p);
        lemma_small_mod((d + p) as nat, p as nat);
    }
}

/// Adding zero leaves a reduced value unchanged.
pub proof fn lemma_fadd_zero(a: nat)
    requires
        a < modulus(),
    ensures
        fadd(a, 0) == a,
        fadd(0, a) == a,
{
    lemma_small_mod(a, modulus());
}

/// Multiplying by zero or one.
pub proof fn lemma_fmul_zero_one(a: nat)
    requires
        a < modulus(),
    ensures
        fmul(a, 0) == 0,
        fmul(0, a) == 0,
        fmul(a, 1) == a,
        fmul(1, a) == a,
{
    lemma_small_mod(a, modulus());
}

/// Subtraction undoes addition: `x - a = b` exactly when `x = a + b`.
pub proof fn lemma_fsub_eq_iff(x: nat, a: nat, b: nat)
    requires
        x < modulus(),
        a < modulus(),
        b < modulus(),
    ensures
        (fsub(x, a) == b) <==> (x == fadd(a, b)),
{
    let p = modulus() as int;
    let d = x as int - a as int;
    if d >= 0 {
        lemma_small_mod(d as nat, p as nat);
    } else {
        lemma_mod_add_multiples_vanish(d, p);
        lemma_small_mod((d + p) as nat, p as nat);
    }
    let s = a as int + b as int;
    if s < p {
        lemma_small_mod(s as nat, p as nat);
    } else {
        lemma_mod_sub_multiples_vanish(s, p);
        lemma_small_mod((s - p) as nat, p as nat);
    }
}

/// A value minus itself is zero.
pub proof fn lemma_fsub_self(a: nat)
    requires
        a < modulus(),
    ensures
        fsub(a, a) == 0,
{
    lemma_fsub_zero_iff_equal(a, a);
}

/// The field has no zero divisors: a product of reduced values is zero
/// exactly when one of its factors is, because the modulus is prime.
pub proof fn lemma_fmul_zero_iff(a: nat, b: nat)
    requires
        a < modulus(),
        b < modulus(),
    ensures
        (fmul(a, b) == 0) <==> (a == 0 || b == 0),
{
    let p = modulus();
    crate::modulus_primality::lemma_modulus_is_prime();
    lemma_small_mod(0, p);
    if a == 0 || b == 0 {
        assert(a * b == 0) by (nonlinear_arith)
            requires
                a == 0 || b == 0,
        ;
    } else if fmul(a, b) == 0 {
        crate::primality::lemma_euclid(p, a as int, b as int);
        lemma_small_mod(a, p);
        lemma_small_mod(b, p);
    }
}

} // verus!
