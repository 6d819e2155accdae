//! The order of the Pallas base field is prime, shown by a chain of
//! Pocklington certificates that ends in primes below eight.
//!
//! Each certificate for a number `n` gives a witness `a`, distinct primes
//! dividing `n - 1` whose product exceeds the square root of `n` (each proved
//! prime by an earlier certificate), the powers `a^((n-1)/q)` and `a^(n-1)`
//! modulo `n` computed by repeated squaring, and integers `u`, `w` with
//! `u * (a^((n-1)/q) mod n - 1) + w * n = 1`.

use crate::field::modulus;
use crate::primality::{
    is_prime, lemma_pocklington, lemma_pow_mod_base, lemma_pow_mod_square, lemma_pow_mod_square_mul,
    lemma_seq_product_push, seq_product,
};
use vstd::arithmetic::power::pow;
use vstd::prelude::*;

verus! {

/// The primes below eight, by trial division.
proof fn lemma_base_primes()
    ensures
        is_prime(2),
        is_prime(3),
        is_prime(5),
        is_prime(7),
{
    assert forall|d: nat| 1 < d < 7 implies #[trigger] (7nat % d) != 0 by {
        assert(d == 2 || d == 3 || d == 4 || d == 5 || d == 6);
    }
    assert forall|d: nat| 1 < d < 5 implies #[trigger] (5nat % d) != 0 by {
        assert(d == 2 || d == 3 || d == 4);
    }
    assert forall|d: nat| 1 < d < 3 implies #[trigger] (3nat % d) != 0 by {
        assert(d == 2);
    }
}

/// `2` to the power `2`, modulo `11`.
proof fn lemma_witness_power_11_0()
    ensures
        pow(2int, 2nat) % 11int == 4int,
{
    lemma_pow_mod_base(2int, 11int);
    lemma_pow_mod_square(2int, 1nat, 2nat, 11int, 2int);
}

/// `2` to the power `10`, modulo `11`.
proof fn lemma_witness_power_11_1()
    ensures
        pow(2int, 10nat) % 11int == 1int,
{
    lemma_pow_mod_base(2int, 11int);
    lemma_pow_mod_square(2int, 1nat, 2nat, 11int, 2int);
    lemma_pow_mod_square_mul(2int, 2nat, 5nat, 11int, 4int);
    lemma_pow_mod_square(2int, 5nat, 10nat, 11int, 10int);
}

/// `11` is prime.
proof fn lemma_prime_11()
    ensures
        is_prime(11nat),
{
    lemma_base_primes();
    lemma_witness_power_11_0();
    lemma_witness_power_11_1();
    let qs: Seq<nat> = Seq::empty().push(5nat);
    let us: Seq<int> = seq![4int];
    let ws: Seq<int> = seq![-1int];
    assert(qs[0] == 5nat && us[0] == 4int && ws[0] == -1int);
    lemma_seq_product_push(Seq::empty(), 5nat);
    assert(((11nat - 1) as nat) / 5nat == 2nat);
    assert(seq_product(qs) == 5nat);
    assert(seq_product(qs) * seq_product(qs) > 11nat);
    lemma_pocklington(11nat, 2nat, qs, us, ws);
}

/// `2` to the power `4`, modulo `13`.
proof fn lemma_witness_power_13_0()
    ensures
        pow(2int, 4nat) % 13int == 3int,
{
    lemma_pow_mod_base(2int, 13int);
    lemma_pow_mod_square(2int, 1nat, 2nat, 13int, 2int);
    lemma_pow_mod_square(2int, 2nat, 4nat, 13int, 4int);
}

/// `2` to the power `6`, modulo `13`.
proof fn lemma_witness_power_13_1()
    ensures
        pow(2int, 6nat) % 13int == 12int,
{
    lemma_pow_mod_base(2int, 13int);
    lemma_pow_mod_square_mul(2int, 1nat, 3nat, 13int, 2int);
    lemma_pow_mod_square(2int, 3nat, 6nat, 13int, 8int);
}

/// `2` to the power `12`, modulo `13`.
proof fn lemma_witness_power_13_2()
    ensures
        pow(2int, 12nat) % 13int == 1int,
{
    lemma_pow_mod_base(2int, 13int);
    lemma_pow_mod_square_mul(2int, 1nat, 3nat, 13int, 2int);
    lemma_pow_mod_square(2int, 3nat, 6nat, 13int, 8int);
    lemma_pow_mod_square(2int, 6nat, 12nat, 13int, 12int);
}

/// `13` is prime.
proof fn lemma_prime_13()
    ensures
        is_prime(13nat),
{
    lemma_base_primes();
    lemma_witness_power_13_0();
    lemma_witness_power_13_1();
    lemma_witness_power_13_2();
    let qs: Seq<nat> = Seq::empty().push(3nat).push(2nat);
    let us: Seq<int> = seq![-6int, 6int];
    let ws: Seq<int> = seq![1int, -5int];
    assert(qs[0] == 3nat && us[0] == -6int && ws[0] == 1int);
    assert(qs[1] == 2nat && us[1] == 6int && ws[1] == -5int);
    lemma_seq_product_push(Seq::empty(), 3nat);
    lemma_seq_product_push(Seq::empty().push(3nat), 2nat);
    assert(((13nat - 1) as nat) / 3nat == 4nat);
    assert(((13nat - 1) as nat) / 2nat == 6nat);
    assert forall|i: int| 0 <= i < qs.len() implies is_prime(#[trigger] qs[i]) && ((13nat - 1) as nat) % qs[i] == 0 by {
        assert(i == 0 || i == 1);
    }
    assert forall|i: int| 0 <= i < qs.len() implies us[i] * (pow(2int, (((13nat - 1) as nat) / #[trigger] qs[i]) as nat) % 13int - 1) + ws[i] * 13int == 1 by {
        assert(i == 0 || i == 1);
    }
    assert forall|i: int, j: int| 0 <= i < j < qs.len() implies qs[i] != qs[j] by {
        assert((i == 0 && j == 1));
    }
    assert(seq_product(qs) == 6nat);
    assert(seq_product(qs) * seq_product(qs) > 13nat);
    lemma_pocklington(13nat, 2nat, qs, us, ws);
}

/// `2` to the power `6`, modulo `19`.
proof fn lemma_witness_power_19_0()
    ensures
        pow(2int, 6nat) % 19int == 7int,
{
    lemma_pow_mod_base(2int, 19int);
    lemma_pow_mod_square_mul(2int, 1nat, 3nat, 19int, 2int);
    lemma_pow_mod_square(2int, 3nat, 6nat, 19int, 8int);
}

/// `2` to the power `9`, modulo `19`.
proof fn lemma_witness_power_19_1()
    ensures
        pow(2int, 9nat) % 19int == 18int,
{
    lemma_pow_mod_base(2int, 19int);
    lemma_pow_mod_square(2int, 1nat, 2nat, 19int, 2int);
    lemma_pow_mod_square(2int, 2nat, 4nat, 19int, 4int);
    lemma_pow_mod_square_mul(2int, 4nat, 9nat, 19int, 16int);
}

/// `2` to the power `18`, modulo `19`.
proof fn lemma_witness_power_19_2()
    ensures
        pow(2int, 18nat) % 19int == 1int,
{
    lemma_pow_mod_base(2int, 19int);
    lemma_pow_mod_square(2int, 1nat, 2nat, 19int, 2int);
    lemma_pow_mod_square(2int, 2nat, 4nat, 19int, 4int);
    lemma_pow_mod_square_mul(2int, 4nat, 9nat, 19int, 16int);
    lemma_pow_mod_square(2int, 9nat, 18nat, 19int, 18int);
}

/// `19` is prime.
proof fn lemma_prime_19()
    ensures
        is_prime(19nat),
{
    lemma_base_primes();
    lemma_witness_power_19_0();
    lemma_witness_power_19_1();
    lemma_witness_power_19_2();
    let qs: Seq<nat> = Seq::empty().push(3nat).push(2nat);
    let us: Seq<int> = seq![-3int, 9int];
    let ws: Seq<int> = seq![1int, -8int];
    assert(qs[0] == 3nat && us[0] == -3int && ws[0] == 1int);
    assert(qs[1] == 2nat && us[1] == 9int && ws[1] == -8int);
    lemma_seq_product_push(Seq::empty(), 3nat);
    lemma_seq_product_push(Seq::empty().push(3nat), 2nat);
    assert(((19nat - 1) as nat) / 3nat == 6nat);
    assert(((19nat - 1) as nat) / 2nat == 9nat);
    assert forall|i: int| 0 <= i < qs.len() implies is_prime(#[trigger] qs[i]) && ((19nat - 1) as nat) % qs[i] == 0 by {
        assert(i == 0 || i == 1);
    }
    assert forall|i: int| 0 <= i < qs.len() implies us[i] * (pow(2int, (((19nat - 1) as nat) / #[trigger] qs[i]) as nat) % 19int - 1) + ws[i] * 19int == 1 by {
        assert(i == 0 || i == 1);
    }
    assert forall|i: int, j: int| 0 <= i < j < qs.len() implies qs[i] != qs[j] by {
        assert((i == 0 && j == 1));
    }
    assert(seq_product(qs) == 6nat);
    assert(seq_product(qs) * seq_product(qs) > 19nat);
    lemma_pocklington(19nat, 2nat, qs, us, ws);
}

/// `2` to the power `12`, modulo `61`.
proof fn lemma_witness_power_61_0()
    ensures
        pow(2int, 12nat) % 61int == 9int,
{
    lemma_pow_mod_base(2int, 61int);
    lemma_pow_mod_square_mul(2int, 1nat, 3nat, 61int, 2int);
    lemma_pow_mod_square(2int, 3nat, 6nat, 61int, 8int);
    lemma_pow_mod_square(2int, 6nat, 12nat, 61int, 3int);
}

/// `2` to the power `20`, modulo `61`.
proof fn lemma_witness_power_61_1()
    ensures
        pow(2int, 20nat) % 61int == 47int,
{
    lemma_pow_mod_base(2int, 61int);
    lemma_pow_mod_square(2int, 1nat, 2nat, 61int, 2int);
    lemma_pow_mod_square_mul(2int, 2nat, 5nat, 61int, 4int);
    lemma_pow_mod_square(2int, 5nat, 10nat, 61int, 32int);
    lemma_pow_mod_square(2int, 10nat, 20nat, 61int, 48int);
}

/// `2` to the power `60`, modulo `61`.
proof fn lemma_witness_power_61_2()
    ensures
        pow(2int, 60nat) % 61int == 1int,
{
    lemma_pow_mod_base(2int, 61int);
    lemma_pow_mod_square_mul(2int, 1nat, 3nat, 61int, 2int);
    lemma_pow_mod_square_mul(2int, 3nat, 7nat, 61int, 8int);
    lemma_pow_mod_square_mul(2int, 7nat, 15nat, 61int, 6int);
    lemma_pow_mod_square(2int, 15nat, 30nat, 61int, 11int);
    lemma_pow_mod_square(2int, 30nat, 60nat, 61int, 60int);
}

/// `61` is prime.
proof fn lemma_prime_61()
    ensures
        is_prime(61nat),
{
    lemma_base_primes();
    lemma_witness_power_61_0();
    lemma_witness_power_61_1();
    lemma_witness_power_61_2();
    let qs: Seq<nat> = Seq::empty().push(5nat).push(3nat);
    let us: Seq<int> = seq![23int, 4int];
    let ws: Seq<int> = seq![-3int, -3int];
    assert(qs[0] == 5nat && us[0] == 23int && ws[0] == -3int);
    assert(qs[1] == 3nat && us[1] == 4int && ws[1] == -3int);
    lemma_seq_product_push(Seq::empty(), 5nat);
    lemma_seq_product_push(Seq::empty().push(5nat), 3nat);
    assert(((61nat - 1) as nat) / 5nat == 12nat);
    assert(((61nat - 1) as nat) / 3nat == 20nat);
    assert forall|i: int| 0 <= i < qs.len() implies is_prime(#[trigger] qs[i]) && ((61nat - 1) as nat) % qs[i] == 0 by {
        assert(i == 0 || i == 1);
    }
    assert forall|i: int| 0 <= i < qs.len() implies us[i] * (pow(2int, (((61nat - 1) as nat) / #[trigger] qs[i]) as nat) % 61int - 1) + ws[i] * 61int == 1 by {
        assert(i == 0 || i == 1);
    }
    assert forall|i: int, j: int| 0 <= i < j < qs.len() implies qs[i] != qs[j] by {
        assert((i == 0 && j == 1));
    }
    assert(seq_product(qs) == 15nat);
    assert(seq_product(qs) * seq_product(qs) > 61nat);
    lemma_pocklington(61nat, 2nat, qs, us, ws);
}

/// `3` to the power `18`, modulo `127`.
proof fn lemma_witness_power_127_0()
    ensures
        pow(3int, 18nat) % 127int == 4int,
{
    lemma_pow_mod_base(3int, 127int);
    lemma_pow_mod_square(3int, 1nat, 2nat, 127int, 3int);
    lemma_pow_mod_square(3int, 2nat, 4nat, 127int, 9int);
    lemma_pow_mod_square_mul(3int, 4nat, 9nat, 127int, 81int);
    lemma_pow_mod_square(3int, 9nat, 18nat, 127int, 125int);
}

/// `3` to the power `42`, modulo `127`.
proof fn lemma_witness_power_127_1()
    ensures
        pow(3int, 42nat) % 127int == 107int,
{
    lemma_pow_mod_base(3int, 127int);
    lemma_pow_mod_square(3int, 1nat, 2nat, 127int, 3int);
    lemma_pow_mod_square_mul(3int, 2nat, 5nat, 127int, 9int);
    lemma_pow_mod_square(3int, 5nat, 10nat, 127int, 116int);
    lemma_pow_mod_square_mul(3int, 10nat, 21nat, 127int, 121int);
    lemma_pow_mod_square(3int, 21nat, 42nat, 127int, 108int);
}

/// `3` to the power `126`, modulo `127`.
proof fn lemma_witness_power_127_2()
    ensures
        pow(3int, 126nat) % 127int == 1int,
{
    lemma_pow_mod_base(3int, 127int);
    lemma_pow_mod_square_mul(3int, 1nat, 3nat, 127int, 3int);
    lemma_pow_mod_square_mul(3int, 3nat, 7nat, 127int, 27int);
    lemma_pow_mod_square_mul(3int, 7nat, 15nat, 127int, 28int);
    lemma_pow_mod_square_mul(3int, 15nat, 31nat, 127int, 66int);
    lemma_pow_mod_square_mul(3int, 31nat, 63nat, 127int, 114int);
    lemma_pow_mod_square(3int, 63nat, 126nat, 127int, 126int);
}

/// `127` is prime.
proof fn lemma_prime_127()
    ensures
        is_prime(127nat),
{
    lemma_base_primes();
    lemma_witness_power_127_0();
    lemma_witness_power_127_1();
    lemma_witness_power_127_2();
    let qs: Seq<nat> = Seq::empty().push(7nat).push(3nat);
    let us: Seq<int> = seq![-42int, 6int];
    let ws: Seq<int> = seq![1int, -5int];
    assert(qs[0] == 7nat && us[0] == -42int && ws[0] == 1int);
    assert(qs[1] == 3nat && us[1] == 6int && ws[1] == -5int);
    lemma_seq_product_push(Seq::empty(), 7nat);
    lemma_seq_product_push(Seq::empty().push(7nat), 3nat);
    assert(((127nat - 1) as nat) / 7nat == 18nat);
    assert(((127nat - 1) as nat) / 3nat == 42nat);
    assert forall|i: int| 0 <= i < qs.len() implies is_prime(#[trigger] qs[i]) && ((127nat - 1) as nat) % qs[i] == 0 by {
        assert(i == 0 || i == 1);
    }
    assert forall|i: int| 0 <= i < qs.len() implies us[i] * (pow(3int, (((127nat - 1) as nat) / #[trigger] qs[i]) as nat) % 127int - 1) + ws[i] * 127int == 1 by {
        assert(i == 0 || i == 1);
    }
    assert forall|i: int, j: int| 0 <= i < j < qs.len() implies qs[i] != qs[j] by {
        assert((i == 0 && j == 1));
    }
    assert(seq_product(qs) == 21nat);
    assert(seq_product(qs) * seq_product(qs) > 127nat);
    lemma_pocklington(127nat, 3nat, qs, us, ws);
}

/// `2` to the power `4`, modulo `509`.
proof fn lemma_witness_power_509_0()
    ensures
        pow(2int, 4nat) % 509int == 16int,
{
    lemma_pow_mod_base(2int, 509int);
    lemma_pow_mod_square(2int, 1nat, 2nat, 509int, 2int);
    lemma_pow_mod_square(2int, 2nat, 4nat, 509int, 4int);
}

/// `2` to the power `508`, modulo `509`.
proof fn lemma_witness_power_509_1()
    ensures
        pow(2int, 508nat) % 509int == 1int,
{
    lemma_pow_mod_base(2int, 509int);
    lemma_pow_mod_square_mul(2int, 1nat, 3nat, 509int, 2int);
    lemma_pow_mod_square_mul(2int, 3nat, 7nat, 509int, 8int);
    lemma_pow_mod_square_mul(2int, 7nat, 15nat, 509int, 128int);
    lemma_pow_mod_square_mul(2int, 15nat, 31nat, 509int, 192int);
    lemma_pow_mod_square_mul(2int, 31nat, 63nat, 509int, 432int);
    lemma_pow_mod_square_mul(2int, 63nat, 127nat, 509int, 151int);
    lemma_pow_mod_square(2int, 127nat, 254nat, 509int, 301int);
    lemma_pow_mod_square(2int, 254nat, 508nat, 509int, 508int);
}

/// `509` is prime.
proof fn lemma_prime_509()
    ensures
        is_prime(509nat),
{
    lemma_prime_127();
    lemma_witness_power_509_0();
    lemma_witness_power_509_1();
    let qs: Seq<nat> = Seq::empty().push(127nat);
    let us: Seq<int> = seq![34int];
    let ws: Seq<int> = seq![-1int];
    assert(qs[0] == 127nat && us[0] == 34int && ws[0] == -1int);
    lemma_seq_product_push(Seq::empty(), 127nat);
    assert(((509nat - 1) as nat) / 127nat == 4nat);
    assert(seq_product(qs) == 127nat);
    assert(seq_product(qs) * seq_product(qs) > 509nat);
    lemma_pocklington(509nat, 2nat, qs, us, ws);
}

/// `2` to the power `16`, modulo `977`.
proof fn lemma_witness_power_977_0()
    ensures
        pow(2int, 16nat) % 977int == 77int,
{
    lemma_pow_mod_base(2int, 977int);
    lemma_pow_mod_square(2int, 1nat, 2nat, 977int, 2int);
    lemma_pow_mod_square(2int, 2nat, 4nat, 977int, 4int);
    lemma_pow_mod_square(2int, 4nat, 8nat, 977int, 16int);
    lemma_pow_mod_square(2int, 8nat, 16nat, 977int, 256int);
}

/// `2` to the power `976`, modulo `977`.
proof fn lemma_witness_power_977_1()
    ensures
        pow(2int, 976nat) % 977int == 1int,
{
    lemma_pow_mod_base(2int, 977int);
    lemma_pow_mod_square_mul(2int, 1nat, 3nat, 977int, 2int);
    lemma_pow_mod_square_mul(2int, 3nat, 7nat, 977int, 8int);
    lemma_pow_mod_square_mul(2int, 7nat, 15nat, 977int, 128int);
    lemma_pow_mod_square(2int, 15nat, 30nat, 977int, 527int);
    lemma_pow_mod_square_mul(2int, 30nat, 61nat, 977int, 261int);
    lemma_pow_mod_square(2int, 61nat, 122nat, 977int, 439int);
    lemma_pow_mod_square(2int, 122nat, 244nat, 977int, 252int);
    lemma_pow_mod_square(2int, 244nat, 488nat, 977int, 976int);
    lemma_pow_mod_square(2int, 488nat, 976nat, 977int, 1int);
}

/// `977` is prime.
proof fn lemma_prime_977()
    ensures
        is_prime(977nat),
{
    lemma_prime_61();
    lemma_witness_power_977_0();
    lemma_witness_power_977_1();
    let qs: Seq<nat> = Seq::empty().push(61nat);
    let us: Seq<int> = seq![90int];
    let ws: Seq<int> = seq![-7int];
    assert(qs[0] == 61nat && us[0] == 90int && ws[0] == -7int);
    lemma_seq_product_push(Seq::empty(), 61nat);
    assert(((977nat - 1) as nat) / 61nat == 16nat);
    assert(seq_product(qs) == 61nat);
    assert(seq_product(qs) * seq_product(qs) > 977nat);
    lemma_pocklington(977nat, 2nat, qs, us, ws);
}

/// `3` to the power `1980`, modulo `25741`.
proof fn lemma_witness_power_25741_0()
    ensures
        pow(3int, 1980nat) % 25741int == 15281int,
{
    lemma_pow_mod_base(3int, 25741int);
    lemma_pow_mod_square_mul(3int, 1nat, 3nat, 25741int, 3int);
    lemma_pow_mod_square_mul(3int, 3nat, 7nat, 25741int, 27int);
    lemma_pow_mod_square_mul(3int, 7nat, 15nat, 25741int, 2187int);
    lemma_pow_mod_square(3int, 15nat, 30nat, 25741int, 11170int);
    lemma_pow_mod_square_mul(3int, 30nat, 61nat, 25741int, 2273int);
    lemma_pow_mod_square_mul(3int, 61nat, 123nat, 25741int, 3505int);
    lemma_pow_mod_square_mul(3int, 123nat, 247nat, 25741int, 19704int);
    lemma_pow_mod_square_mul(3int, 247nat, 495nat, 25741int, 14080int);
    lemma_pow_mod_square(3int, 495nat, 990nat, 25741int, 19136int);
    lemma_pow_mod_square(3int, 990nat, 1980nat, 25741int, 20771int);
}

/// `3` to the power `2340`, modulo `25741`.
proof fn lemma_witness_power_25741_1()
    ensures
        pow(3int, 2340nat) % 25741int == 14113int,
{
    lemma_pow_mod_base(3int, 25741int);
    lemma_pow_mod_square(3int, 1nat, 2nat, 25741int, 3int);
    lemma_pow_mod_square(3int, 2nat, 4nat, 25741int, 9int);
    lemma_pow_mod_square_mul(3int, 4nat, 9nat, 25741int, 81int);
    lemma_pow_mod_square(3int, 9nat, 18nat, 25741int, 19683int);
    lemma_pow_mod_square(3int, 18nat, 36nat, 25741int, 18439int);
    lemma_pow_mod_square_mul(3int, 36nat, 73nat, 25741int, 9593int);
    lemma_pow_mod_square(3int, 73nat, 146nat, 25741int, 4722int);
    lemma_pow_mod_square(3int, 146nat, 292nat, 25741int, 5578int);
    lemma_pow_mod_square_mul(3int, 292nat, 585nat, 25741int, 18956int);
    lemma_pow_mod_square(3int, 585nat, 1170nat, 25741int, 8210int);
    lemma_pow_mod_square(3int, 1170nat, 2340nat, 25741int, 14162int);
}

/// `3` to the power `5148`, modulo `25741`.
proof fn lemma_witness_power_25741_2()
    ensures
        pow(3int, 5148nat) % 25741int == 2525int,
{
    lemma_pow_mod_base(3int, 25741int);
    lemma_pow_mod_square(3int, 1nat, 2nat, 25741int, 3int);
    lemma_pow_mod_square_mul(3int, 2nat, 5nat, 25741int, 9int);
    lemma_pow_mod_square(3int, 5nat, 10nat, 25741int, 243int);
    lemma_pow_mod_square(3int, 10nat, 20nat, 25741int, 7567int);
    lemma_pow_mod_square(3int, 20nat, 40nat, 25741int, 11505int);
    lemma_pow_mod_square(3int, 40nat, 80nat, 25741int, 4803int);
    lemma_pow_mod_square(3int, 80nat, 160nat, 25741int, 4873int);
    lemma_pow_mod_square_mul(3int, 160nat, 321nat, 25741int, 12927int);
    lemma_pow_mod_square_mul(3int, 321nat, 643nat, 25741int, 16012int);
    lemma_pow_mod_square_mul(3int, 643nat, 1287nat, 25741int, 11352int);
    lemma_pow_mod_square(3int, 1287nat, 2574nat, 25741int, 25374int);
    lemma_pow_mod_square(3int, 2574nat, 5148nat, 25741int, 5984int);
}

/// `3` to the power `25740`, modulo `25741`.
proof fn lemma_witness_power_25741_3()
    ensures
        pow(3int, 25740nat) % 25741int == 1int,
{
    lemma_pow_mod_base(3int, 25741int);
    lemma_pow_mod_square_mul(3int, 1nat, 3nat, 25741int, 3int);
    lemma_pow_mod_square(3int, 3nat, 6nat, 25741int, 27int);
    lemma_pow_mod_square(3int, 6nat, 12nat, 25741int, 729int);
    lemma_pow_mod_square_mul(3int, 12nat, 25nat, 25741int, 16621int);
    lemma_pow_mod_square(3int, 25nat, 50nat, 25741int, 15687int);
    lemma_pow_mod_square(3int, 50nat, 100nat, 25741int, 23750int);
    lemma_pow_mod_square_mul(3int, 100nat, 201nat, 25741int, 25708int);
    lemma_pow_mod_square(3int, 201nat, 402nat, 25741int, 3267int);
    lemma_pow_mod_square(3int, 402nat, 804nat, 25741int, 16515int);
    lemma_pow_mod_square(3int, 804nat, 1608nat, 25741int, 19330int);
    lemma_pow_mod_square_mul(3int, 1608nat, 3217nat, 25741int, 18285int);
    lemma_pow_mod_square_mul(3int, 3217nat, 6435nat, 25741int, 25610int);
    lemma_pow_mod_square(3int, 6435nat, 12870nat, 25741int, 1int);
    lemma_pow_mod_square(3int, 12870nat, 25740nat, 25741int, 1int);
}

/// `25741` is prime.
proof fn lemma_prime_25741()
    ensures
        is_prime(25741nat),
{
    lemma_prime_13();
    lemma_prime_11();
    lemma_base_primes();
    lemma_witness_power_25741_0();
    lemma_witness_power_25741_1();
    lemma_witness_power_25741_2();
    lemma_witness_power_25741_3();
    let qs: Seq<nat> = Seq::empty().push(13nat).push(11nat).push(5nat);
    let us: Seq<int> = seq![-2596int, -12150int, 10841int];
    let ws: Seq<int> = seq![1541int, 6661int, -1063int];
    assert(qs[0] == 13nat && us[0] == -2596int && ws[0] == 1541int);
    assert(qs[1] == 11nat && us[1] == -12150int && ws[1] == 6661int);
    assert(qs[2] == 5nat && us[2] == 10841int && ws[2] == -1063int);
    lemma_seq_product_push(Seq::empty(), 13nat);
    lemma_seq_product_push(Seq::empty().push(13nat), 11nat);
    lemma_seq_product_push(Seq::empty().push(13nat).push(11nat), 5nat);
    assert(((25741nat - 1) as nat) / 13nat == 1980nat);
    assert(((25741nat - 1) as nat) / 11nat == 2340nat);
    assert(((25741nat - 1) as nat) / 5nat == 5148nat);
    assert forall|i: int| 0 <= i < qs.len() implies is_prime(#[trigger] qs[i]) && ((25741nat - 1) as nat) % qs[i] == 0 by {
        assert(i == 0 || i == 1 || i == 2);
    }
    assert forall|i: int| 0 <= i < qs.len() implies us[i] * (pow(3int, (((25741nat - 1) as nat) / #[trigger] qs[i]) as nat) % 25741int - 1) + ws[i] * 25741int == 1 by {
        assert(i == 0 || i == 1 || i == 2);
    }
    assert forall|i: int, j: int| 0 <= i < j < qs.len() implies qs[i] != qs[j] by {
        assert((i == 0 && j == 1) || (i == 0 && j == 2) || (i == 1 && j == 2));
    }
    assert(seq_product(qs) == 715nat);
    assert(seq_product(qs) * seq_product(qs) > 25741nat);
    lemma_pocklington(25741nat, 3nat, qs, us, ws);
}

/// `2` to the power `30`, modulo `772231`.
proof fn lemma_witness_power_772231_0()
    ensures
        pow(2int, 30nat) % 772231int == 340734int,
{
    lemma_pow_mod_base(2int, 772231int);
    lemma_pow_mod_square_mul(2int, 1nat, 3nat, 772231int, 2int);
    lemma_pow_mod_square_mul(2int, 3nat, 7nat, 772231int, 8int);
    lemma_pow_mod_square_mul(2int, 7nat, 15nat, 772231int, 128int);
    lemma_pow_mod_square(2int, 15nat, 30nat, 772231int, 32768int);
}

/// `2` to the power `772230`, modulo `772231`.
proof fn lemma_witness_power_772231_1()
    ensures
        pow(2int, 772230nat) % 772231int == 1int,
{
    lemma_pow_mod_base(2int, 772231int);
    lemma_pow_mod_square(2int, 1nat, 2nat, 772231int, 2int);
    lemma_pow_mod_square_mul(2int, 2nat, 5nat, 772231int, 4int);
    lemma_pow_mod_square_mul(2int, 5nat, 11nat, 772231int, 32int);
    lemma_pow_mod_square_mul(2int, 11nat, 23nat, 772231int, 2048int);
    lemma_pow_mod_square_mul(2int, 23nat, 47nat, 772231int, 666298int);
    lemma_pow_mod_square(2int, 47nat, 94nat, 772231int, 251425int);
    lemma_pow_mod_square(2int, 94nat, 188nat, 772231int, 473196int);
    lemma_pow_mod_square_mul(2int, 188nat, 377nat, 772231int, 670349int);
    lemma_pow_mod_square(2int, 377nat, 754nat, 772231int, 770106int);
    lemma_pow_mod_square(2int, 754nat, 1508nat, 772231int, 654470int);
    lemma_pow_mod_square(2int, 1508nat, 3016nat, 772231int, 701054int);
    lemma_pow_mod_square_mul(2int, 3016nat, 6033nat, 772231int, 329969int);
    lemma_pow_mod_square(2int, 6033nat, 12066nat, 772231int, 751156int);
    lemma_pow_mod_square(2int, 12066nat, 24132nat, 772231int, 122800int);
    lemma_pow_mod_square(2int, 24132nat, 48264nat, 772231int, 485263int);
    lemma_pow_mod_square(2int, 48264nat, 96528nat, 772231int, 691415int);
    lemma_pow_mod_square_mul(2int, 96528nat, 193057nat, 772231int, 468289int);
    lemma_pow_mod_square_mul(2int, 193057nat, 386115nat, 772231int, 578592int);
    lemma_pow_mod_square(2int, 386115nat, 772230nat, 772231int, 1int);
}

/// `772231` is prime.
proof fn lemma_prime_772231()
    ensures
        is_prime(772231nat),
{
    lemma_prime_25741();
    lemma_witness_power_772231_0();
    lemma_witness_power_772231_1();
    let qs: Seq<nat> = Seq::empty().push(25741nat);
    let us: Seq<int> = seq![-37631int];
    let ws: Seq<int> = seq![16604int];
    assert(qs[0] == 25741nat && us[0] == -37631int && ws[0] == 16604int);
    lemma_seq_product_push(Seq::empty(), 25741nat);
    assert(((772231nat - 1) as nat) / 25741nat == 30nat);
    assert(seq_product(qs) == 25741nat);
    assert(seq_product(qs) * seq_product(qs) > 772231nat);
    lemma_pocklington(772231nat, 2nat, qs, us, ws);
}

/// `2` to the power `7106`, modulo `6942563`.
proof fn lemma_witness_power_6942563_0()
    ensures
        pow(2int, 7106nat) % 6942563int == 5061822int,
{
    lemma_pow_mod_base(2int, 6942563int);
    lemma_pow_mod_square_mul(2int, 1nat, 3nat, 6942563int, 2int);
    lemma_pow_mod_square(2int, 3nat, 6nat, 6942563int, 8int);
    lemma_pow_mod_square_mul(2int, 6nat, 13nat, 6942563int, 64int);
    lemma_pow_mod_square_mul(2int, 13nat, 27nat, 6942563int, 8192int);
    lemma_pow_mod_square_mul(2int, 27nat, 55nat, 6942563int, 2309031int);
    lemma_pow_mod_square_mul(2int, 55nat, 111nat, 6942563int, 6127273int);
    lemma_pow_mod_square(2int, 111nat, 222nat, 6942563int, 5834708int);
    lemma_pow_mod_square(2int, 222nat, 444nat, 6942563int, 1701070int);
    lemma_pow_mod_square(2int, 444nat, 888nat, 6942563int, 6656752int);
    lemma_pow_mod_square(2int, 888nat, 1776nat, 6942563int, 1731463int);
    lemma_pow_mod_square_mul(2int, 1776nat, 3553nat, 6942563int, 5738020int);
    lemma_pow_mod_square(2int, 3553nat, 7106nat, 6942563int, 2137521int);
}

/// `2` to the power `365398`, modulo `6942563`.
proof fn lemma_witness_power_6942563_1()
    ensures
        pow(2int, 365398nat) % 6942563int == 1534969int,
{
    lemma_pow_mod_base(2int, 6942563int);
    lemma_pow_mod_square(2int, 1nat, 2nat, 6942563int, 2int);
    lemma_pow_mod_square_mul(2int, 2nat, 5nat, 6942563int, 4int);
    lemma_pow_mod_square_mul(2int, 5nat, 11nat, 6942563int, 32int);
    lemma_pow_mod_square(2int, 11nat, 22nat, 6942563int, 2048int);
    lemma_pow_mod_square(2int, 22nat, 44nat, 6942563int, 4194304int);
    lemma_pow_mod_square_mul(2int, 44nat, 89nat, 6942563int, 2162373int);
    lemma_pow_mod_square(2int, 89nat, 178nat, 6942563int, 5253065int);
    lemma_pow_mod_square(2int, 178nat, 356nat, 6942563int, 3427369int);
    lemma_pow_mod_square_mul(2int, 356nat, 713nat, 6942563int, 10783int);
    lemma_pow_mod_square_mul(2int, 713nat, 1427nat, 6942563int, 3441599int);
    lemma_pow_mod_square(2int, 1427nat, 2854nat, 6942563int, 2161892int);
    lemma_pow_mod_square_mul(2int, 2854nat, 5709nat, 6942563int, 1952686int);
    lemma_pow_mod_square(2int, 5709nat, 11418nat, 6942563int, 4097724int);
    lemma_pow_mod_square_mul(2int, 11418nat, 22837nat, 6942563int, 3567872int);
    lemma_pow_mod_square(2int, 22837nat, 45674nat, 6942563int, 1311318int);
    lemma_pow_mod_square_mul(2int, 45674nat, 91349nat, 6942563int, 65595int);
    lemma_pow_mod_square_mul(2int, 91349nat, 182699nat, 6942563int, 3572493int);
    lemma_pow_mod_square(2int, 182699nat, 365398nat, 6942563int, 3503333int);
}

/// `2` to the power `6942562`, modulo `6942563`.
proof fn lemma_witness_power_6942563_2()
    ensures
        pow(2int, 6942562nat) % 6942563int == 1int,
{
    lemma_pow_mod_base(2int, 6942563int);
    lemma_pow_mod_square_mul(2int, 1nat, 3nat, 6942563int, 2int);
    lemma_pow_mod_square(2int, 3nat, 6nat, 6942563int, 8int);
    lemma_pow_mod_square_mul(2int, 6nat, 13nat, 6942563int, 64int);
    lemma_pow_mod_square(2int, 13nat, 26nat, 6942563int, 8192int);
    lemma_pow_mod_square(2int, 26nat, 52nat, 6942563int, 4625797int);
    lemma_pow_mod_square_mul(2int, 52nat, 105nat, 6942563int, 5105011int);
    lemma_pow_mod_square_mul(2int, 105nat, 211nat, 6942563int, 3996359int);
    lemma_pow_mod_square_mul(2int, 211nat, 423nat, 6942563int, 3167019int);
    lemma_pow_mod_square_mul(2int, 423nat, 847nat, 6942563int, 3596447int);
    lemma_pow_mod_square(2int, 847nat, 1694nat, 6942563int, 4489243int);
    lemma_pow_mod_square_mul(2int, 1694nat, 3389nat, 6942563int, 397743int);
    lemma_pow_mod_square_mul(2int, 3389nat, 6779nat, 6942563int, 5564499int);
    lemma_pow_mod_square_mul(2int, 6779nat, 13559nat, 6942563int, 4237841int);
    lemma_pow_mod_square_mul(2int, 13559nat, 27119nat, 6942563int, 283285int);
    lemma_pow_mod_square(2int, 27119nat, 54238nat, 6942563int, 2611016int);
    lemma_pow_mod_square_mul(2int, 54238nat, 108477nat, 6942563int, 2078020int);
    lemma_pow_mod_square_mul(2int, 108477nat, 216955nat, 6942563int, 1088253int);
    lemma_pow_mod_square(2int, 216955nat, 433910nat, 6942563int, 1907871int);
    lemma_pow_mod_square(2int, 433910nat, 867820nat, 6942563int, 6799430int);
    lemma_pow_mod_square(2int, 867820nat, 1735640nat, 6942563int, 6494839int);
    lemma_pow_mod_square_mul(2int, 1735640nat, 3471281nat, 6942563int, 4158677int);
    lemma_pow_mod_square(2int, 3471281nat, 6942562nat, 6942563int, 6942562int);
}

/// `6942563` is prime.
proof fn lemma_prime_6942563()
    ensures
        is_prime(6942563nat),
{
    lemma_prime_977();
    lemma_prime_19();
    lemma_witness_power_6942563_0();
    lemma_witness_power_6942563_1();
    lemma_witness_power_6942563_2();
    let qs: Seq<nat> = Seq::empty().push(977nat).push(19nat);
    let us: Seq<int> = seq![1778843int, 2039071int];
    let ws: Seq<int> = seq![-1296954int, -450829int];
    assert(qs[0] == 977nat && us[0] == 1778843int && ws[0] == -1296954int);
    assert(qs[1] == 19nat && us[1] == 2039071int && ws[1] == -450829int);
    lemma_seq_product_push(Seq::empty(), 977nat);
    lemma_seq_product_push(Seq::empty().push(977nat), 19nat);
    assert(((6942563nat - 1) as nat) / 977nat == 7106nat);
    assert(((6942563nat - 1) as nat) / 19nat == 365398nat);
    assert forall|i: int| 0 <= i < qs.len() implies is_prime(#[trigger] qs[i]) && ((6942563nat - 1) as nat) % qs[i] == 0 by {
        assert(i == 0 || i == 1);
    }
    assert forall|i: int| 0 <= i < qs.len() implies us[i] * (pow(2int, (((6942563nat - 1) as nat) / #[trigger] qs[i]) as nat) % 6942563int - 1) + ws[i] * 6942563int == 1 by {
        assert(i == 0 || i == 1);
    }
    assert forall|i: int, j: int| 0 <= i < j < qs.len() implies qs[i] != qs[j] by {
        assert((i == 0 && j == 1));
    }
    assert(seq_product(qs) == 18563nat);
    assert(seq_product(qs) * seq_product(qs) > 6942563nat);
    lemma_pocklington(6942563nat, 2nat, qs, us, ws);
}

/// `2` to the power `6`, modulo `41655379`.
proof fn lemma_witness_power_41655379_0()
    ensures
        pow(2int, 6nat) % 41655379int == 64int,
{
    lemma_pow_mod_base(2int, 41655379int);
    lemma_pow_mod_square_mul(2int, 1nat, 3nat, 41655379int, 2int);
    lemma_pow_mod_square(2int, 3nat, 6nat, 41655379int, 8int);
}

/// `2` to the power `41655378`, modulo `41655379`.
proof fn lemma_witness_power_41655379_1()
    ensures
        pow(2int, 41655378nat) % 41655379int == 1int,
{
    lemma_pow_mod_base(2int, 41655379int);
    lemma_pow_mod_square(2int, 1nat, 2nat, 41655379int, 2int);
    lemma_pow_mod_square(2int, 2nat, 4nat, 41655379int, 4int);
    lemma_pow_mod_square_mul(2int, 4nat, 9nat, 41655379int, 16int);
    lemma_pow_mod_square_mul(2int, 9nat, 19nat, 41655379int, 512int);
    lemma_pow_mod_square_mul(2int, 19nat, 39nat, 41655379int, 524288int);
    lemma_pow_mod_square_mul(2int, 39nat, 79nat, 41655379int, 29777225int);
    lemma_pow_mod_square(2int, 79nat, 158nat, 41655379int, 7925833int);
    lemma_pow_mod_square_mul(2int, 158nat, 317nat, 41655379int, 17889149int);
    lemma_pow_mod_square_mul(2int, 317nat, 635nat, 41655379int, 32822223int);
    lemma_pow_mod_square_mul(2int, 635nat, 1271nat, 41655379int, 33997009int);
    lemma_pow_mod_square(2int, 1271nat, 2542nat, 41655379int, 6437453int);
    lemma_pow_mod_square(2int, 2542nat, 5084nat, 41655379int, 30639817int);
    lemma_pow_mod_square_mul(2int, 5084nat, 10169nat, 41655379int, 28939675int);
    lemma_pow_mod_square_mul(2int, 10169nat, 20339nat, 41655379int, 9630633int);
    lemma_pow_mod_square_mul(2int, 20339nat, 40679nat, 41655379int, 33102980int);
    lemma_pow_mod_square(2int, 40679nat, 81358nat, 41655379int, 31123042int);
    lemma_pow_mod_square(2int, 81358nat, 162716nat, 41655379int, 15567893int);
    lemma_pow_mod_square(2int, 162716nat, 325432nat, 41655379int, 8017028int);
    lemma_pow_mod_square_mul(2int, 325432nat, 650865nat, 41655379int, 29404807int);
    lemma_pow_mod_square(2int, 650865nat, 1301730nat, 41655379int, 30002872int);
    lemma_pow_mod_square_mul(2int, 1301730nat, 2603461nat, 41655379int, 4612174int);
    lemma_pow_mod_square(2int, 2603461nat, 5206922nat, 41655379int, 34880071int);
    lemma_pow_mod_square(2int, 5206922nat, 10413844nat, 41655379int, 29316937int);
    lemma_pow_mod_square_mul(2int, 10413844nat, 20827689nat, 41655379int, 28808265int);
    lemma_pow_mod_square(2int, 20827689nat, 41655378nat, 41655379int, 41655378int);
}

/// `41655379` is prime.
proof fn lemma_prime_41655379()
    ensures
        is_prime(41655379nat),
{
    lemma_prime_6942563();
    lemma_witness_power_41655379_0();
    lemma_witness_power_41655379_1();
    let qs: Seq<nat> = Seq::empty().push(6942563nat);
    let us: Seq<int> = seq![1322393int];
    let ws: Seq<int> = seq![-2int];
    assert(qs[0] == 6942563nat && us[0] == 1322393int && ws[0] == -2int);
    lemma_seq_product_push(Seq::empty(), 6942563nat);
    assert(((41655379nat - 1) as nat) / 6942563nat == 6nat);
    assert(seq_product(qs) == 6942563nat);
    assert(seq_product(qs) * seq_product(qs) > 41655379nat);
    lemma_pocklington(41655379nat, 2nat, qs, us, ws);
}

/// `2` to the power `532`, modulo `22160661629`.
proof fn lemma_witness_power_22160661629_0()
    ensures
        pow(2int, 532nat) % 22160661629int == 17216609584int,
{
    lemma_pow_mod_base(2int, 22160661629int);
    lemma_pow_mod_square(2int, 1nat, 2nat, 22160661629int, 2int);
    lemma_pow_mod_square(2int, 2nat, 4nat, 22160661629int, 4int);
    lemma_pow_mod_square(2int, 4nat, 8nat, 22160661629int, 16int);
    lemma_pow_mod_square(2int, 8nat, 16nat, 22160661629int, 256int);
    lemma_pow_mod_square_mul(2int, 16nat, 33nat, 22160661629int, 65536int);
    lemma_pow_mod_square(2int, 33nat, 66nat, 22160661629int, 8589934592int);
    lemma_pow_mod_square_mul(2int, 66nat, 133nat, 22160661629int, 16480816328int);
    lemma_pow_mod_square(2int, 133nat, 266nat, 22160661629int, 17536694909int);
    lemma_pow_mod_square(2int, 266nat, 532nat, 22160661629int, 15498686782int);
}

/// `2` to the power `22160661628`, modulo `22160661629`.
proof fn lemma_witness_power_22160661629_1()
    ensures
        pow(2int, 22160661628nat) % 22160661629int == 1int,
{
    lemma_pow_mod_base(2int, 22160661629int);
    lemma_pow_mod_square(2int, 1nat, 2nat, 22160661629int, 2int);
    lemma_pow_mod_square_mul(2int, 2nat, 5nat, 22160661629int, 4int);
    lemma_pow_mod_square(2int, 5nat, 10nat, 22160661629int, 32int);
    lemma_pow_mod_square(2int, 10nat, 20nat, 22160661629int, 1024int);
    lemma_pow_mod_square_mul(2int, 20nat, 41nat, 22160661629int, 1048576int);
    lemma_pow_mod_square(2int, 41nat, 82nat, 22160661629int, 5117754281int);
    lemma_pow_mod_square_mul(2int, 82nat, 165nat, 22160661629int, 20452397606int);
    lemma_pow_mod_square(2int, 165nat, 330nat, 22160661629int, 20390932494int);
    lemma_pow_mod_square(2int, 330nat, 660nat, 22160661629int, 11270903882int);
    lemma_pow_mod_square(2int, 660nat, 1320nat, 22160661629int, 21723522612int);
    lemma_pow_mod_square_mul(2int, 1320nat, 2641nat, 22160661629int, 21383324449int);
    lemma_pow_mod_square_mul(2int, 2641nat, 5283nat, 22160661629int, 7804724779int);
    lemma_pow_mod_square_mul(2int, 5283nat, 10567nat, 22160661629int, 14200482644int);
    lemma_pow_mod_square(2int, 10567nat, 21134nat, 22160661629int, 8746730398int);
    lemma_pow_mod_square(2int, 21134nat, 42268nat, 22160661629int, 3811080592int);
    lemma_pow_mod_square(2int, 42268nat, 84536nat, 22160661629int, 18297822697int);
    lemma_pow_mod_square(2int, 84536nat, 169072nat, 22160661629int, 4143285669int);
    lemma_pow_mod_square(2int, 169072nat, 338144nat, 22160661629int, 14016807180int);
    lemma_pow_mod_square_mul(2int, 338144nat, 676289nat, 22160661629int, 10862273445int);
    lemma_pow_mod_square_mul(2int, 676289nat, 1352579nat, 22160661629int, 18778983804int);
    lemma_pow_mod_square(2int, 1352579nat, 2705158nat, 22160661629int, 20538291996int);
    lemma_pow_mod_square_mul(2int, 2705158nat, 5410317nat, 22160661629int, 15050189101int);
    lemma_pow_mod_square_mul(2int, 5410317nat, 10820635nat, 22160661629int, 7664555201int);
    lemma_pow_mod_square_mul(2int, 10820635nat, 21641271nat, 22160661629int, 14245574905int);
    lemma_pow_mod_square(2int, 21641271nat, 43282542nat, 22160661629int, 21148667651int);
    lemma_pow_mod_square(2int, 43282542nat, 86565084nat, 22160661629int, 14376093418int);
    lemma_pow_mod_square(2int, 86565084nat, 173130168nat, 22160661629int, 21230555922int);
    lemma_pow_mod_square_mul(2int, 173130168nat, 346260337nat, 22160661629int, 19458498639int);
    lemma_pow_mod_square_mul(2int, 346260337nat, 692520675nat, 22160661629int, 6658702850int);
    lemma_pow_mod_square_mul(2int, 692520675nat, 1385041351nat, 22160661629int, 2468794735int);
    lemma_pow_mod_square_mul(2int, 1385041351nat, 2770082703nat, 22160661629int, 21868800985int);
    lemma_pow_mod_square_mul(2int, 2770082703nat, 5540165407nat, 22160661629int, 21325092415int);
    lemma_pow_mod_square(2int, 5540165407nat, 11080330814nat, 22160661629int, 1671138427int);
    lemma_pow_mod_square(2int, 11080330814nat, 22160661628nat, 22160661629int, 22160661628int);
}

/// `22160661629` is prime.
proof fn lemma_prime_22160661629()
    ensures
        is_prime(22160661629nat),
{
    lemma_prime_41655379();
    lemma_witness_power_22160661629_0();
    lemma_witness_power_22160661629_1();
    let qs: Seq<nat> = Seq::empty().push(41655379nat);
    let us: Seq<int> = seq![-5430838393int];
    let ws: Seq<int> = seq![4219216280int];
    assert(qs[0] == 41655379nat && us[0] == -5430838393int && ws[0] == 4219216280int);
    lemma_seq_product_push(Seq::empty(), 41655379nat);
    assert(((22160661629nat - 1) as nat) / 41655379nat == 532nat);
    assert(seq_product(qs) == 41655379nat);
    assert(seq_product(qs) * seq_product(qs) > 22160661629nat);
    lemma_pocklington(22160661629nat, 2nat, qs, us, ws);
}

/// `2` to the power `420970486`, modulo `325086459374267`.
proof fn lemma_witness_power_325086459374267_0()
    ensures
        pow(2int, 420970486nat) % 325086459374267int == 156180095894647int,
{
    lemma_pow_mod_base(2int, 325086459374267int);
    lemma_pow_mod_square_mul(2int, 1nat, 3nat, 325086459374267int, 2int);
    lemma_pow_mod_square(2int, 3nat, 6nat, 325086459374267int, 8int);
    lemma_pow_mod_square(2int, 6nat, 12nat, 325086459374267int, 64int);
    lemma_pow_mod_square_mul(2int, 12nat, 25nat, 325086459374267int, 4096int);
    lemma_pow_mod_square(2int, 25nat, 50nat, 325086459374267int, 33554432int);
    lemma_pow_mod_square(2int, 50nat, 100nat, 325086459374267int, 150640528719823int);
    lemma_pow_mod_square(2int, 100nat, 200nat, 325086459374267int, 70923209506112int);
    lemma_pow_mod_square_mul(2int, 200nat, 401nat, 325086459374267int, 291497362983032int);
    lemma_pow_mod_square(2int, 401nat, 802nat, 325086459374267int, 246270931449456int);
    lemma_pow_mod_square_mul(2int, 802nat, 1605nat, 325086459374267int, 159896135778184int);
    lemma_pow_mod_square_mul(2int, 1605nat, 3211nat, 325086459374267int, 120381914071093int);
    lemma_pow_mod_square_mul(2int, 3211nat, 6423nat, 325086459374267int, 109862549629936int);
    lemma_pow_mod_square(2int, 6423nat, 12846nat, 325086459374267int, 27900228541211int);
    lemma_pow_mod_square_mul(2int, 12846nat, 25693nat, 325086459374267int, 301905139185278int);
    lemma_pow_mod_square_mul(2int, 25693nat, 51387nat, 325086459374267int, 251297449483184int);
    lemma_pow_mod_square_mul(2int, 51387nat, 102775nat, 325086459374267int, 74976513941720int);
    lemma_pow_mod_square_mul(2int, 102775nat, 205551nat, 325086459374267int, 142564112154701int);
    lemma_pow_mod_square_mul(2int, 205551nat, 411103nat, 325086459374267int, 31756243796545int);
    lemma_pow_mod_square_mul(2int, 411103nat, 822207nat, 325086459374267int, 292794114921990int);
    lemma_pow_mod_square_mul(2int, 822207nat, 1644415nat, 325086459374267int, 23061371170810int);
    lemma_pow_mod_square_mul(2int, 1644415nat, 3288831nat, 325086459374267int, 18708138414238int);
    lemma_pow_mod_square_mul(2int, 3288831nat, 6577663nat, 325086459374267int, 110062896548504int);
    lemma_pow_mod_square_mul(2int, 6577663nat, 13155327nat, 325086459374267int, 230214181128088int);
    lemma_pow_mod_square_mul(2int, 13155327nat, 26310655nat, 325086459374267int, 181413121178087int);
    lemma_pow_mod_square(2int, 26310655nat, 52621310nat, 325086459374267int, 78160860936644int);
    lemma_pow_mod_square_mul(2int, 52621310nat, 105242621nat, 325086459374267int, 197457364297317int);
    lemma_pow_mod_square_mul(2int, 105242621nat, 210485243nat, 325086459374267int, 1114308212474int);
    lemma_pow_mod_square(2int, 210485243nat, 420970486nat, 325086459374267int, 77910403943933int);
}

/// `2` to the power `638676737474`, modulo `325086459374267`.
proof fn lemma_witness_power_325086459374267_1()
    ensures
        pow(2int, 638676737474nat) % 325086459374267int == 129472211388361int,
{
    lemma_pow_mod_base(2int, 325086459374267int);
    lemma_pow_mod_square(2int, 1nat, 2nat, 325086459374267int, 2int);
    lemma_pow_mod_square(2int, 2nat, 4nat, 325086459374267int, 4int);
    lemma_pow_mod_square_mul(2int, 4nat, 9nat, 325086459374267int, 16int);
    lemma_pow_mod_square(2int, 9nat, 18nat, 325086459374267int, 512int);
    lemma_pow_mod_square_mul(2int, 18nat, 37nat, 325086459374267int, 262144int);
    lemma_pow_mod_square(2int, 37nat, 74nat, 325086459374267int, 137438953472int);
    lemma_pow_mod_square(2int, 74nat, 148nat, 325086459374267int, 250238906909459int);
    lemma_pow_mod_square_mul(2int, 148nat, 297nat, 325086459374267int, 143786578213802int);
    lemma_pow_mod_square(2int, 297nat, 594nat, 325086459374267int, 177545301051819int);
    lemma_pow_mod_square_mul(2int, 594nat, 1189nat, 325086459374267int, 236567697312572int);
    lemma_pow_mod_square_mul(2int, 1189nat, 2379nat, 325086459374267int, 8709960806647int);
    lemma_pow_mod_square(2int, 2379nat, 4758nat, 325086459374267int, 238038083063262int);
    lemma_pow_mod_square_mul(2int, 4758nat, 9517nat, 325086459374267int, 43250075310179int);
    lemma_pow_mod_square(2int, 9517nat, 19034nat, 325086459374267int, 34558024963546int);
    lemma_pow_mod_square(2int, 19034nat, 38068nat, 325086459374267int, 290874418942183int);
    lemma_pow_mod_square(2int, 38068nat, 76136nat, 325086459374267int, 250225651932449int);
    lemma_pow_mod_square(2int, 76136nat, 152272nat, 325086459374267int, 137500134782927int);
    lemma_pow_mod_square(2int, 152272nat, 304544nat, 325086459374267int, 87405702081534int);
    lemma_pow_mod_square_mul(2int, 304544nat, 609089nat, 325086459374267int, 185598647590284int);
    lemma_pow_mod_square_mul(2int, 609089nat, 1218179nat, 325086459374267int, 39896973586331int);
    lemma_pow_mod_square(2int, 1218179nat, 2436358nat, 325086459374267int, 53438052055469int);
    lemma_pow_mod_square(2int, 2436358nat, 4872716nat, 325086459374267int, 283873011496228int);
    lemma_pow_mod_square_mul(2int, 4872716nat, 9745433nat, 325086459374267int, 185861562761977int);
    lemma_pow_mod_square_mul(2int, 9745433nat, 19490867nat, 325086459374267int, 319097324423117int);
    lemma_pow_mod_square(2int, 19490867nat, 38981734nat, 325086459374267int, 145462873661008int);
    lemma_pow_mod_square(2int, 38981734nat, 77963468nat, 325086459374267int, 233551312598714int);
    lemma_pow_mod_square_mul(2int, 77963468nat, 155926937nat, 325086459374267int, 165529760996314int);
    lemma_pow_mod_square_mul(2int, 155926937nat, 311853875nat, 325086459374267int, 68605397295161int);
    lemma_pow_mod_square_mul(2int, 311853875nat, 623707751nat, 325086459374267int, 310018600357319int);
    lemma_pow_mod_square(2int, 623707751nat, 1247415502nat, 325086459374267int, 178639176343019int);
    lemma_pow_mod_square_mul(2int, 1247415502nat, 2494831005nat, 325086459374267int, 41195195349723int);
    lemma_pow_mod_square_mul(2int, 2494831005nat, 4989662011nat, 325086459374267int, 37840227408675int);
    lemma_pow_mod_square_mul(2int, 4989662011nat, 9979324023nat, 325086459374267int, 156252271126838int);
    lemma_pow_mod_square(2int, 9979324023nat, 19958648046nat, 325086459374267int, 301800245383287int);
    lemma_pow_mod_square(2int, 19958648046nat, 39917296092nat, 325086459374267int, 169954233379668int);
    lemma_pow_mod_square(2int, 39917296092nat, 79834592184nat, 325086459374267int, 193313021745051int);
    lemma_pow_mod_square(2int, 79834592184nat, 159669184368nat, 325086459374267int, 42062941404785int);
    lemma_pow_mod_square_mul(2int, 159669184368nat, 319338368737nat, 325086459374267int, 141689005425195int);
    lemma_pow_mod_square(2int, 319338368737nat, 638676737474nat, 325086459374267int, 87119439742591int);
}

/// `2` to the power `325086459374266`, modulo `325086459374267`.
proof fn lemma_witness_power_325086459374267_2()
    ensures
        pow(2int, 325086459374266nat) % 325086459374267int == 1int,
{
    lemma_pow_mod_base(2int, 325086459374267int);
    lemma_pow_mod_square(2int, 1nat, 2nat, 325086459374267int, 2int);
    lemma_pow_mod_square(2int, 2nat, 4nat, 325086459374267int, 4int);
    lemma_pow_mod_square_mul(2int, 4nat, 9nat, 325086459374267int, 16int);
    lemma_pow_mod_square(2int, 9nat, 18nat, 325086459374267int, 512int);
    lemma_pow_mod_square(2int, 18nat, 36nat, 325086459374267int, 262144int);
    lemma_pow_mod_square_mul(2int, 36nat, 73nat, 325086459374267int, 68719476736int);
    lemma_pow_mod_square_mul(2int, 73nat, 147nat, 325086459374267int, 287662683141863int);
    lemma_pow_mod_square_mul(2int, 147nat, 295nat, 325086459374267int, 71893289106901int);
    lemma_pow_mod_square_mul(2int, 295nat, 591nat, 325086459374267int, 288201169793655int);
    lemma_pow_mod_square(2int, 591nat, 1182nat, 325086459374267int, 192114191851205int);
    lemma_pow_mod_square_mul(2int, 1182nat, 2365nat, 325086459374267int, 28005164171278int);
    lemma_pow_mod_square(2int, 2365nat, 4730nat, 325086459374267int, 128390346083653int);
    lemma_pow_mod_square_mul(2int, 4730nat, 9461nat, 325086459374267int, 136128196349724int);
    lemma_pow_mod_square(2int, 9461nat, 18922nat, 325086459374267int, 201393110410395int);
    lemma_pow_mod_square_mul(2int, 18922nat, 37845nat, 325086459374267int, 300948575156985int);
    lemma_pow_mod_square(2int, 37845nat, 75690nat, 325086459374267int, 5217088904932int);
    lemma_pow_mod_square(2int, 75690nat, 151380nat, 325086459374267int, 232529950399783int);
    lemma_pow_mod_square(2int, 151380nat, 302760nat, 325086459374267int, 271598491714270int);
    lemma_pow_mod_square(2int, 302760nat, 605520nat, 325086459374267int, 148016616590797int);
    lemma_pow_mod_square_mul(2int, 605520nat, 1211041nat, 325086459374267int, 27240807102181int);
    lemma_pow_mod_square(2int, 1211041nat, 2422082nat, 325086459374267int, 275500630556509int);
    lemma_pow_mod_square_mul(2int, 2422082nat, 4844165nat, 325086459374267int, 18248938183660int);
    lemma_pow_mod_square_mul(2int, 4844165nat, 9688331nat, 325086459374267int, 147354875962633int);
    lemma_pow_mod_square(2int, 9688331nat, 19376662nat, 325086459374267int, 58757875768670int);
    lemma_pow_mod_square_mul(2int, 19376662nat, 38753325nat, 325086459374267int, 6811264666493int);
    lemma_pow_mod_square_mul(2int, 38753325nat, 77506651nat, 325086459374267int, 171154065941490int);
    lemma_pow_mod_square_mul(2int, 77506651nat, 155013303nat, 325086459374267int, 67253938676318int);
    lemma_pow_mod_square(2int, 155013303nat, 310026606nat, 325086459374267int, 242447945325548int);
    lemma_pow_mod_square_mul(2int, 310026606nat, 620053213nat, 325086459374267int, 288376120113326int);
    lemma_pow_mod_square_mul(2int, 620053213nat, 1240106427nat, 325086459374267int, 2984916921618int);
    lemma_pow_mod_square_mul(2int, 1240106427nat, 2480212855nat, 325086459374267int, 143573244874557int);
    lemma_pow_mod_square(2int, 2480212855nat, 4960425710nat, 325086459374267int, 275562167606434int);
    lemma_pow_mod_square_mul(2int, 4960425710nat, 9920851421nat, 325086459374267int, 67256156598426int);
    lemma_pow_mod_square(2int, 9920851421nat, 19841702842nat, 325086459374267int, 130665417258057int);
    lemma_pow_mod_square_mul(2int, 19841702842nat, 39683405685nat, 325086459374267int, 102566377916562int);
    lemma_pow_mod_square(2int, 39683405685nat, 79366811370nat, 325086459374267int, 267685031211091int);
    lemma_pow_mod_square_mul(2int, 79366811370nat, 158733622741nat, 325086459374267int, 286924862993401int);
    lemma_pow_mod_square(2int, 158733622741nat, 317467245482nat, 325086459374267int, 315207151867329int);
    lemma_pow_mod_square_mul(2int, 317467245482nat, 634934490965nat, 325086459374267int, 30154059946494int);
    lemma_pow_mod_square(2int, 634934490965nat, 1269868981930nat, 325086459374267int, 16304754101974int);
    lemma_pow_mod_square_mul(2int, 1269868981930nat, 2539737963861nat, 325086459374267int, 154055364160004int);
    lemma_pow_mod_square(2int, 2539737963861nat, 5079475927722nat, 325086459374267int, 85625546342902int);
    lemma_pow_mod_square_mul(2int, 5079475927722nat, 10158951855445nat, 325086459374267int, 18075918560353int);
    lemma_pow_mod_square_mul(2int, 10158951855445nat, 20317903710891nat, 325086459374267int, 185743279731045int);
    lemma_pow_mod_square_mul(2int, 20317903710891nat, 40635807421783nat, 325086459374267int, 299674890539979int);
    lemma_pow_mod_square(2int, 40635807421783nat, 81271614843566nat, 325086459374267int, 307238431853613int);
    lemma_pow_mod_square_mul(2int, 81271614843566nat, 162543229687133nat, 325086459374267int, 983432449641int);
    lemma_pow_mod_square(2int, 162543229687133nat, 325086459374266nat, 325086459374267int, 325086459374266int);
}

/// `325086459374267` is prime.
proof fn lemma_prime_325086459374267()
    ensures
        is_prime(325086459374267nat),
{
    lemma_prime_772231();
    lemma_prime_509();
    lemma_witness_power_325086459374267_0();
    lemma_witness_power_325086459374267_1();
    lemma_witness_power_325086459374267_2();
    let qs: Seq<nat> = Seq::empty().push(772231nat).push(509nat);
    let us: Seq<int> = seq![-116065995054245int, 115503506082563int];
    let ws: Seq<int> = seq![55761160500413int, -46001591036437int];
    assert(qs[0] == 772231nat && us[0] == -116065995054245int && ws[0] == 55761160500413int);
    assert(qs[1] == 509nat && us[1] == 115503506082563int && ws[1] == -46001591036437int);
    lemma_seq_product_push(Seq::empty(), 772231nat);
    lemma_seq_product_push(Seq::empty().push(772231nat), 509nat);
    assert(((325086459374267nat - 1) as nat) / 772231nat == 420970486nat);
    assert(((325086459374267nat - 1) as nat) / 509nat == 638676737474nat);
    assert forall|i: int| 0 <= i < qs.len() implies is_prime(#[trigger] qs[i]) && ((325086459374267nat - 1) as nat) % qs[i] == 0 by {
        assert(i == 0 || i == 1);
    }
    assert forall|i: int| 0 <= i < qs.len() implies us[i] * (pow(2int, (((325086459374267nat - 1) as nat) / #[trigger] qs[i]) as nat) % 325086459374267int - 1) + ws[i] * 325086459374267int == 1 by {
        assert(i == 0 || i == 1);
    }
    assert forall|i: int, j: int| 0 <= i < j < qs.len() implies qs[i] != qs[j] by {
        assert((i == 0 && j == 1));
    }
    assert(seq_product(qs) == 393065579nat);
    assert(seq_product(qs) * seq_product(qs) > 325086459374267nat);
    lemma_pocklington(325086459374267nat, 2nat, qs, us, ws);
}

/// `2` to the power `27682465692912573825889481556`, modulo `8999194758858563409123804352480028797519453`.
proof fn lemma_witness_power_large_factor_0()
    ensures
        pow(2int, 27682465692912573825889481556nat) % 8999194758858563409123804352480028797519453int == 1923835525255145170976080895073905971702885int,
{
    lemma_pow_mod_base(2int, 8999194758858563409123804352480028797519453int);
    lemma_pow_mod_square(2int, 1nat, 2nat, 8999194758858563409123804352480028797519453int, 2int);
    lemma_pow_mod_square_mul(2int, 2nat, 5nat, 8999194758858563409123804352480028797519453int, 4int);
    lemma_pow_mod_square_mul(2int, 5nat, 11nat, 8999194758858563409123804352480028797519453int, 32int);
    lemma_pow_mod_square(2int, 11nat, 22nat, 8999194758858563409123804352480028797519453int, 2048int);
    lemma_pow_mod_square(2int, 22nat, 44nat, 8999194758858563409123804352480028797519453int, 4194304int);
    lemma_pow_mod_square_mul(2int, 44nat, 89nat, 8999194758858563409123804352480028797519453int, 17592186044416int);
    lemma_pow_mod_square(2int, 89nat, 178nat, 8999194758858563409123804352480028797519453int, 618970019642690137449562112int);
    lemma_pow_mod_square_mul(2int, 178nat, 357nat, 8999194758858563409123804352480028797519453int, 1986108560213041188210730872155509579819094int);
    lemma_pow_mod_square_mul(2int, 357nat, 715nat, 8999194758858563409123804352480028797519453int, 6397154573237205121706733676995142974253691int);
    lemma_pow_mod_square_mul(2int, 715nat, 1431nat, 8999194758858563409123804352480028797519453int, 8286966812491215641882816100014533145343055int);
    lemma_pow_mod_square(2int, 1431nat, 2862nat, 8999194758858563409123804352480028797519453int, 7470775599752267293712166759754134032421131int);
    lemma_pow_mod_square(2int, 2862nat, 5724nat, 8999194758858563409123804352480028797519453int, 2719597881237920459274807123965294158118296int);
    lemma_pow_mod_square_mul(2int, 5724nat, 11449nat, 8999194758858563409123804352480028797519453int, 5131388399022896558166558859286576254386072int);
    lemma_pow_mod_square(2int, 11449nat, 22898nat, 8999194758858563409123804352480028797519453int, 4147827286477527108907218031171946663046162int);
    lemma_pow_mod_square(2int, 22898nat, 45796nat, 8999194758858563409123804352480028797519453int, 1086720467609630808317049549082137209674451int);
    lemma_pow_mod_square_mul(2int, 45796nat, 91593nat, 8999194758858563409123804352480028797519453int, 4645496501153501384767537148399459176450657int);
    lemma_pow_mod_square_mul(2int, 91593nat, 183187nat, 8999194758858563409123804352480028797519453int, 6039191803960171378084844742315887799650424int);
    lemma_pow_mod_square(2int, 183187nat, 366374nat, 8999194758858563409123804352480028797519453int, 6848643230024610368507479826515532075911750int);
    lemma_pow_mod_square(2int, 366374nat, 732748nat, 8999194758858563409123804352480028797519453int, 2245982271252827369341006790195237496891756int);
    lemma_pow_mod_square_mul(2int, 732748nat, 1465497nat, 8999194758858563409123804352480028797519453int, 8854542642110216772745363375140681614673201int);
    lemma_pow_mod_square_mul(2int, 1465497nat, 2930995nat, 8999194758858563409123804352480028797519453int, 1313988944916879103892826125725579227882776int);
    lemma_pow_mod_square(2int, 2930995nat, 5861990nat, 8999194758858563409123804352480028797519453int, 8865660547835393828570677834367962539434996int);
    lemma_pow_mod_square(2int, 5861990nat, 11723980nat, 8999194758858563409123804352480028797519453int, 383080750922654015943909856515387474083417int);
    lemma_pow_mod_square(2int, 11723980nat, 23447960nat, 8999194758858563409123804352480028797519453int, 5349728804139153225430581502361241688428578int);
    lemma_pow_mod_square_mul(2int, 23447960nat, 46895921nat, 8999194758858563409123804352480028797519453int, 6326635594856988692226416728721372098588090int);
    lemma_pow_mod_square(2int, 46895921nat, 93791842nat, 8999194758858563409123804352480028797519453int, 4905269375052152061749373043283930135436489int);
    lemma_pow_mod_square(2int, 93791842nat, 187583684nat, 8999194758858563409123804352480028797519453int, 2194085653165745585365635256526884303187541int);
    lemma_pow_mod_square(2int, 187583684nat, 375167368nat, 8999194758858563409123804352480028797519453int, 8641876319251144817758781366951527176693551int);
    lemma_pow_mod_square(2int, 375167368nat, 750334736nat, 8999194758858563409123804352480028797519453int, 6387588979686005172525176900790060349588561int);
    lemma_pow_mod_square(2int, 750334736nat, 1500669472nat, 8999194758858563409123804352480028797519453int, 2671336908100062502220542814686055064649522int);
    lemma_pow_mod_square(2int, 1500669472nat, 3001338944nat, 8999194758858563409123804352480028797519453int, 2045681004394892444636498523334947554352535int);
    lemma_pow_mod_square(2int, 3001338944nat, 6002677888nat, 8999194758858563409123804352480028797519453int, 3694793935304781653671725351677311126991185int);
    lemma_pow_mod_square_mul(2int, 6002677888nat, 12005355777nat, 8999194758858563409123804352480028797519453int, 4882828620147056796771405868177578330588233int);
    lemma_pow_mod_square_mul(2int, 12005355777nat, 24010711555nat, 8999194758858563409123804352480028797519453int, 7837241016384306668381398421269066040046604int);
    lemma_pow_mod_square(2int, 24010711555nat, 48021423110nat, 8999194758858563409123804352480028797519453int, 6053660366204249443219266705971820539149570int);
    lemma_pow_mod_square(2int, 48021423110nat, 96042846220nat, 8999194758858563409123804352480028797519453int, 4911624404628220714840616565051171034503121int);
    lemma_pow_mod_square_mul(2int, 96042846220nat, 192085692441nat, 8999194758858563409123804352480028797519453int, 3139326155674153866929240074215761058513412int);
    lemma_pow_mod_square_mul(2int, 192085692441nat, 384171384883nat, 8999194758858563409123804352480028797519453int, 6787971914553276899342927639362664824250676int);
    lemma_pow_mod_square(2int, 384171384883nat, 768342769766nat, 8999194758858563409123804352480028797519453int, 2917392148006531300830288436783075623982817int);
    lemma_pow_mod_square_mul(2int, 768342769766nat, 1536685539533nat, 8999194758858563409123804352480028797519453int, 3418605811452892931012194754959955558995573int);
    lemma_pow_mod_square(2int, 1536685539533nat, 3073371079066nat, 8999194758858563409123804352480028797519453int, 7809008058491709841065138257696356707652874int);
    lemma_pow_mod_square_mul(2int, 3073371079066nat, 6146742158133nat, 8999194758858563409123804352480028797519453int, 4710652446091927501251415928215112621102390int);
    lemma_pow_mod_square_mul(2int, 6146742158133nat, 12293484316267nat, 8999194758858563409123804352480028797519453int, 6697377128668969983659750089675435855609666int);
    lemma_pow_mod_square(2int, 12293484316267nat, 24586968632534nat, 8999194758858563409123804352480028797519453int, 8366653508640979608336988183876494698804757int);
    lemma_pow_mod_square(2int, 24586968632534nat, 49173937265068nat, 8999194758858563409123804352480028797519453int, 5093425502523775548325973874051428859940139int);
    lemma_pow_mod_square(2int, 49173937265068nat, 98347874530136nat, 8999194758858563409123804352480028797519453int, 1656469210040989463679633341490595896362486int);
    lemma_pow_mod_square(2int, 98347874530136nat, 196695749060272nat, 8999194758858563409123804352480028797519453int, 5356231028242132272898129452258192516754946int);
    lemma_pow_mod_square(2int, 196695749060272nat, 393391498120544nat, 8999194758858563409123804352480028797519453int, 2522623919750189417415390589969134454650942int);
    lemma_pow_mod_square(2int, 393391498120544nat, 786782996241088nat, 8999194758858563409123804352480028797519453int, 1894058976292430933413388931658707072009148int);
    lemma_pow_mod_square_mul(2int, 786782996241088nat, 1573565992482177nat, 8999194758858563409123804352480028797519453int, 2568909685507004875107507756210779407983725int);
    lemma_pow_mod_square(2int, 1573565992482177nat, 3147131984964354nat, 8999194758858563409123804352480028797519453int, 5943737105212810128232958097841636284678320int);
    lemma_pow_mod_square_mul(2int, 3147131984964354nat, 6294263969928709nat, 8999194758858563409123804352480028797519453int, 8526879298855526516292351622262717071655188int);
    lemma_pow_mod_square_mul(2int, 6294263969928709nat, 12588527939857419nat, 8999194758858563409123804352480028797519453int, 2620064561838872618613788828940512757029128int);
    lemma_pow_mod_square(2int, 12588527939857419nat, 25177055879714838nat, 8999194758858563409123804352480028797519453int, 4736891361936827067081206087278339564928758int);
    lemma_pow_mod_square_mul(2int, 25177055879714838nat, 50354111759429677nat, 8999194758858563409123804352480028797519453int, 1656542213546603913269352729247443284824474int);
    lemma_pow_mod_square(2int, 50354111759429677nat, 100708223518859354nat, 8999194758858563409123804352480028797519453int, 105305598453243283520487215762804470016234int);
    lemma_pow_mod_square(2int, 100708223518859354nat, 201416447037718708nat, 8999194758858563409123804352480028797519453int, 2409415063012899073220558368222990424745087int);
    lemma_pow_mod_square_mul(2int, 201416447037718708nat, 402832894075437417nat, 8999194758858563409123804352480028797519453int, 4690560856070864756159782170371096924557841int);
    lemma_pow_mod_square(2int, 402832894075437417nat, 805665788150874834nat, 8999194758858563409123804352480028797519453int, 5092391161802949859487183723156121663766325int);
    lemma_pow_mod_square_mul(2int, 805665788150874834nat, 1611331576301749669nat, 8999194758858563409123804352480028797519453int, 1906966209210558855487722734245285848127030int);
    lemma_pow_mod_square(2int, 1611331576301749669nat, 3222663152603499338nat, 8999194758858563409123804352480028797519453int, 1088241634946216071312788619548899319827913int);
    lemma_pow_mod_square(2int, 3222663152603499338nat, 6445326305206998676nat, 8999194758858563409123804352480028797519453int, 2062667290602565871414845570207713955589326int);
    lemma_pow_mod_square_mul(2int, 6445326305206998676nat, 12890652610413997353nat, 8999194758858563409123804352480028797519453int, 148545848579309921817416857630181091321972int);
    lemma_pow_mod_square(2int, 12890652610413997353nat, 25781305220827994706nat, 8999194758858563409123804352480028797519453int, 5584750742751963347523244973404950901889839int);
    lemma_pow_mod_square(2int, 25781305220827994706nat, 51562610441655989412nat, 8999194758858563409123804352480028797519453int, 209065032902447887804408368108170585223382int);
    lemma_pow_mod_square(2int, 51562610441655989412nat, 103125220883311978824nat, 8999194758858563409123804352480028797519453int, 8552179837571934857944842738681464440175368int);
    lemma_pow_mod_square(2int, 103125220883311978824nat, 206250441766623957648nat, 8999194758858563409123804352480028797519453int, 6135510828960438989036370751837459302268999int);
    lemma_pow_mod_square(2int, 206250441766623957648nat, 412500883533247915296nat, 8999194758858563409123804352480028797519453int, 5527800482062722956864829064757042520581914int);
    lemma_pow_mod_square(2int, 412500883533247915296nat, 825001767066495830592nat, 8999194758858563409123804352480028797519453int, 8204944599008705340304969017915678941758202int);
    lemma_pow_mod_square(2int, 825001767066495830592nat, 1650003534132991661184nat, 8999194758858563409123804352480028797519453int, 1435865829980872689067155258811649197359389int);
    lemma_pow_mod_square(2int, 1650003534132991661184nat, 3300007068265983322368nat, 8999194758858563409123804352480028797519453int, 1310280180327102424301221711199279320098878int);
    lemma_pow_mod_square_mul(2int, 3300007068265983322368nat, 6600014136531966644737nat, 8999194758858563409123804352480028797519453int, 4948663692416882476976589852361587391589385int);
    lemma_pow_mod_square_mul(2int, 6600014136531966644737nat, 13200028273063933289475nat, 8999194758858563409123804352480028797519453int, 4975932572509448612548547112016042585067433int);
    lemma_pow_mod_square(2int, 13200028273063933289475nat, 26400056546127866578950nat, 8999194758858563409123804352480028797519453int, 1738182317143411936965860830302505737232048int);
    lemma_pow_mod_square(2int, 26400056546127866578950nat, 52800113092255733157900nat, 8999194758858563409123804352480028797519453int, 4488913777650742771409546755475379584780246int);
    lemma_pow_mod_square_mul(2int, 52800113092255733157900nat, 105600226184511466315801nat, 8999194758858563409123804352480028797519453int, 8303658795524319546906083856351468708278719int);
    lemma_pow_mod_square_mul(2int, 105600226184511466315801nat, 211200452369022932631603nat, 8999194758858563409123804352480028797519453int, 7605257788076654945415276500117497604898388int);
    lemma_pow_mod_square(2int, 211200452369022932631603nat, 422400904738045865263206nat, 8999194758858563409123804352480028797519453int, 5577461199960392269089511943483306930006537int);
    lemma_pow_mod_square(2int, 422400904738045865263206nat, 844801809476091730526412nat, 8999194758858563409123804352480028797519453int, 452369453886561631468836954496530322845177int);
    lemma_pow_mod_square(2int, 844801809476091730526412nat, 1689603618952183461052824nat, 8999194758858563409123804352480028797519453int, 7163369579189833078587263597122986329400126int);
    lemma_pow_mod_square_mul(2int, 1689603618952183461052824nat, 3379207237904366922105649nat, 8999194758858563409123804352480028797519453int, 4744094490247707048363445555174825919218811int);
    lemma_pow_mod_square_mul(2int, 3379207237904366922105649nat, 6758414475808733844211299nat, 8999194758858563409123804352480028797519453int, 3909142063508635363553939986318052338748872int);
    lemma_pow_mod_square(2int, 6758414475808733844211299nat, 13516828951617467688422598nat, 8999194758858563409123804352480028797519453int, 1470816608575325851389111039160629976411848int);
    lemma_pow_mod_square(2int, 13516828951617467688422598nat, 27033657903234935376845196nat, 8999194758858563409123804352480028797519453int, 3849855163743076887372227632066843782534032int);
    lemma_pow_mod_square_mul(2int, 27033657903234935376845196nat, 54067315806469870753690393nat, 8999194758858563409123804352480028797519453int, 2893780725804738594702238684268026881597933int);
    lemma_pow_mod_square_mul(2int, 54067315806469870753690393nat, 108134631612939741507380787nat, 8999194758858563409123804352480028797519453int, 4792833465997899928361655082442963562748559int);
    lemma_pow_mod_square(2int, 108134631612939741507380787nat, 216269263225879483014761574nat, 8999194758858563409123804352480028797519453int, 5846898281532892684082643389120380069840387int);
    lemma_pow_mod_square_mul(2int, 216269263225879483014761574nat, 432538526451758966029523149nat, 8999194758858563409123804352480028797519453int, 8949617751106484446683360395223673695631924int);
    lemma_pow_mod_square(2int, 432538526451758966029523149nat, 865077052903517932059046298nat, 8999194758858563409123804352480028797519453int, 7931259852573917774665804367498295709878874int);
    lemma_pow_mod_square_mul(2int, 865077052903517932059046298nat, 1730154105807035864118092597nat, 8999194758858563409123804352480028797519453int, 4844769526307997717656047195578890109063853int);
    lemma_pow_mod_square(2int, 1730154105807035864118092597nat, 3460308211614071728236185194nat, 8999194758858563409123804352480028797519453int, 6906176155510564589959842060242453253782654int);
    lemma_pow_mod_square_mul(2int, 3460308211614071728236185194nat, 6920616423228143456472370389nat, 8999194758858563409123804352480028797519453int, 7638726973203931916949195733645281294316519int);
    lemma_pow_mod_square(2int, 6920616423228143456472370389nat, 13841232846456286912944740778nat, 8999194758858563409123804352480028797519453int, 2239676957466509164771660599636231497565066int);
    lemma_pow_mod_square(2int, 13841232846456286912944740778nat, 27682465692912573825889481556nat, 8999194758858563409123804352480028797519453int, 6516658197335264215155927829540369675678361int);
}

/// `2` to the power `406088721966766121824069856270988`, modulo `8999194758858563409123804352480028797519453`.
proof fn lemma_witness_power_large_factor_1()
    ensures
        pow(2int, 406088721966766121824069856270988nat) % 8999194758858563409123804352480028797519453int == 7468371576130240648439236849311461678235198int,
{
    lemma_pow_mod_base(2int, 8999194758858563409123804352480028797519453int);
    lemma_pow_mod_square(2int, 1nat, 2nat, 8999194758858563409123804352480028797519453int, 2int);
    lemma_pow_mod_square_mul(2int, 2nat, 5nat, 8999194758858563409123804352480028797519453int, 4int);
    lemma_pow_mod_square(2int, 5nat, 10nat, 8999194758858563409123804352480028797519453int, 32int);
    lemma_pow_mod_square(2int, 10nat, 20nat, 8999194758858563409123804352480028797519453int, 1024int);
    lemma_pow_mod_square(2int, 20nat, 40nat, 8999194758858563409123804352480028797519453int, 1048576int);
    lemma_pow_mod_square(2int, 40nat, 80nat, 8999194758858563409123804352480028797519453int, 1099511627776int);
    lemma_pow_mod_square(2int, 80nat, 160nat, 8999194758858563409123804352480028797519453int, 1208925819614629174706176int);
    lemma_pow_mod_square(2int, 160nat, 320nat, 8999194758858563409123804352480028797519453int, 5410907995644871751634460468902852380817417int);
    lemma_pow_mod_square(2int, 320nat, 640nat, 8999194758858563409123804352480028797519453int, 6373313362235304703225996142790822211165366int);
    lemma_pow_mod_square_mul(2int, 640nat, 1281nat, 8999194758858563409123804352480028797519453int, 2687085218798758993550690455645322513011625int);
    lemma_pow_mod_square(2int, 1281nat, 2562nat, 8999194758858563409123804352480028797519453int, 1351516801842520799928028410168857886453474int);
    lemma_pow_mod_square_mul(2int, 2562nat, 5125nat, 8999194758858563409123804352480028797519453int, 6695854923847754377473674752434860727557960int);
    lemma_pow_mod_square_mul(2int, 5125nat, 10251nat, 8999194758858563409123804352480028797519453int, 5706785771964886382358179549744963367613855int);
    lemma_pow_mod_square(2int, 10251nat, 20502nat, 8999194758858563409123804352480028797519453int, 6637157079957247289176111837881290755503226int);
    lemma_pow_mod_square(2int, 20502nat, 41004nat, 8999194758858563409123804352480028797519453int, 7530072678331515697983945875726662549695865int);
    lemma_pow_mod_square(2int, 41004nat, 82008nat, 8999194758858563409123804352480028797519453int, 5165537084286653820500618336868253651390689int);
    lemma_pow_mod_square_mul(2int, 82008nat, 164017nat, 8999194758858563409123804352480028797519453int, 465595596319138267961089388124052793348838int);
    lemma_pow_mod_square_mul(2int, 164017nat, 328035nat, 8999194758858563409123804352480028797519453int, 8220854842580847420224386398143948841543465int);
    lemma_pow_mod_square_mul(2int, 328035nat, 656071nat, 8999194758858563409123804352480028797519453int, 7600414991866947412745688687907578798718138int);
    lemma_pow_mod_square_mul(2int, 656071nat, 1312143nat, 8999194758858563409123804352480028797519453int, 5774832853246375059277729178681429954766082int);
    lemma_pow_mod_square(2int, 1312143nat, 2624286nat, 8999194758858563409123804352480028797519453int, 3938766573327338603490723637542677788769286int);
    lemma_pow_mod_square_mul(2int, 2624286nat, 5248573nat, 8999194758858563409123804352480028797519453int, 7503022067640654208777090546989422276366436int);
    lemma_pow_mod_square_mul(2int, 5248573nat, 10497147nat, 8999194758858563409123804352480028797519453int, 6838390110461978832837970802694415594987782int);
    lemma_pow_mod_square(2int, 10497147nat, 20994294nat, 8999194758858563409123804352480028797519453int, 6185547924678276281126311522977063699876590int);
    lemma_pow_mod_square_mul(2int, 20994294nat, 41988589nat, 8999194758858563409123804352480028797519453int, 2524817909296590807112490346575195593095339int);
    lemma_pow_mod_square_mul(2int, 41988589nat, 83977179nat, 8999194758858563409123804352480028797519453int, 7380800807636780944148303941071626937641548int);
    lemma_pow_mod_square(2int, 83977179nat, 167954358nat, 8999194758858563409123804352480028797519453int, 4911421579780238406605237792328060281293258int);
    lemma_pow_mod_square_mul(2int, 167954358nat, 335908717nat, 8999194758858563409123804352480028797519453int, 462188357544225061871997398703528955559684int);
    lemma_pow_mod_square_mul(2int, 335908717nat, 671817435nat, 8999194758858563409123804352480028797519453int, 7570975644812105057391363946432197005081097int);
    lemma_pow_mod_square_mul(2int, 671817435nat, 1343634871nat, 8999194758858563409123804352480028797519453int, 8171292988758812660686631261967897137929047int);
    lemma_pow_mod_square(2int, 1343634871nat, 2687269742nat, 8999194758858563409123804352480028797519453int, 2819851062938648905993627574111204483708158int);
    lemma_pow_mod_square(2int, 2687269742nat, 5374539484nat, 8999194758858563409123804352480028797519453int, 4794594867817189238500691357827333974224765int);
    lemma_pow_mod_square_mul(2int, 5374539484nat, 10749078969nat, 8999194758858563409123804352480028797519453int, 3630807706482843734700750754511303040744402int);
    lemma_pow_mod_square(2int, 10749078969nat, 21498157938nat, 8999194758858563409123804352480028797519453int, 4487096231018905103788775153448320280304031int);
    lemma_pow_mod_square(2int, 21498157938nat, 42996315876nat, 8999194758858563409123804352480028797519453int, 5207412661595706437400735008801672007933213int);
    lemma_pow_mod_square_mul(2int, 42996315876nat, 85992631753nat, 8999194758858563409123804352480028797519453int, 8444669609039095975003430717879176180075018int);
    lemma_pow_mod_square_mul(2int, 85992631753nat, 171985263507nat, 8999194758858563409123804352480028797519453int, 1427922806564540635602149465518533573246832int);
    lemma_pow_mod_square(2int, 171985263507nat, 343970527014nat, 8999194758858563409123804352480028797519453int, 6352672456885855420319900573968421013714393int);
    lemma_pow_mod_square(2int, 343970527014nat, 687941054028nat, 8999194758858563409123804352480028797519453int, 1407234895552515517518758388161370425956123int);
    lemma_pow_mod_square(2int, 687941054028nat, 1375882108056nat, 8999194758858563409123804352480028797519453int, 654994909093000560659402062345269022731758int);
    lemma_pow_mod_square_mul(2int, 1375882108056nat, 2751764216113nat, 8999194758858563409123804352480028797519453int, 3177325779146776867559511094489287630744516int);
    lemma_pow_mod_square_mul(2int, 2751764216113nat, 5503528432227nat, 8999194758858563409123804352480028797519453int, 3740609820266818981114515815476215905946537int);
    lemma_pow_mod_square_mul(2int, 5503528432227nat, 11007056864455nat, 8999194758858563409123804352480028797519453int, 4020976525589898476837974519629343930171995int);
    lemma_pow_mod_square_mul(2int, 11007056864455nat, 22014113728911nat, 8999194758858563409123804352480028797519453int, 5334787742489619875153133578327335516458372int);
    lemma_pow_mod_square(2int, 22014113728911nat, 44028227457822nat, 8999194758858563409123804352480028797519453int, 7959329620733071424255095628634331747361300int);
    lemma_pow_mod_square_mul(2int, 44028227457822nat, 88056454915645nat, 8999194758858563409123804352480028797519453int, 6119598890825683204253019830021075799825975int);
    lemma_pow_mod_square_mul(2int, 88056454915645nat, 176112909831291nat, 8999194758858563409123804352480028797519453int, 8461915000403339871490373154806467357100774int);
    lemma_pow_mod_square_mul(2int, 176112909831291nat, 352225819662583nat, 8999194758858563409123804352480028797519453int, 8471852254563072888434515554139367497760771int);
    lemma_pow_mod_square_mul(2int, 352225819662583nat, 704451639325167nat, 8999194758858563409123804352480028797519453int, 630098106863048584710090359035412478560029int);
    lemma_pow_mod_square_mul(2int, 704451639325167nat, 1408903278650335nat, 8999194758858563409123804352480028797519453int, 6407374411092012230887509346023300454404192int);
    lemma_pow_mod_square(2int, 1408903278650335nat, 2817806557300670nat, 8999194758858563409123804352480028797519453int, 1990658793646839200497118515750134100305642int);
    lemma_pow_mod_square_mul(2int, 2817806557300670nat, 5635613114601341nat, 8999194758858563409123804352480028797519453int, 8903874275708414136212133889175613503460098int);
    lemma_pow_mod_square_mul(2int, 5635613114601341nat, 11271226229202683nat, 8999194758858563409123804352480028797519453int, 4853074086172045179432118726420067812361198int);
    lemma_pow_mod_square(2int, 11271226229202683nat, 22542452458405366nat, 8999194758858563409123804352480028797519453int, 8112442701851271114272789697940143140315854int);
    lemma_pow_mod_square_mul(2int, 22542452458405366nat, 45084904916810733nat, 8999194758858563409123804352480028797519453int, 6349112443757939366928592056857087508977510int);
    lemma_pow_mod_square(2int, 45084904916810733nat, 90169809833621466nat, 8999194758858563409123804352480028797519453int, 8443660449115873196660420088595191215004949int);
    lemma_pow_mod_square(2int, 90169809833621466nat, 180339619667242932nat, 8999194758858563409123804352480028797519453int, 5999629036920400499540321549042536696889065int);
    lemma_pow_mod_square_mul(2int, 180339619667242932nat, 360679239334485865nat, 8999194758858563409123804352480028797519453int, 7371323325049383150014262189862594833153924int);
    lemma_pow_mod_square(2int, 360679239334485865nat, 721358478668971730nat, 8999194758858563409123804352480028797519453int, 8334467362225557130166842835760394642339789int);
    lemma_pow_mod_square_mul(2int, 721358478668971730nat, 1442716957337943461nat, 8999194758858563409123804352480028797519453int, 3872405654350757750533103463647175274422486int);
    lemma_pow_mod_square_mul(2int, 1442716957337943461nat, 2885433914675886923nat, 8999194758858563409123804352480028797519453int, 8303969938652842583316355548952109598148570int);
    lemma_pow_mod_square_mul(2int, 2885433914675886923nat, 5770867829351773847nat, 8999194758858563409123804352480028797519453int, 6530545179444943696382978121260290463626584int);
    lemma_pow_mod_square(2int, 5770867829351773847nat, 11541735658703547694nat, 8999194758858563409123804352480028797519453int, 4850541849999561523347440668340575760910796int);
    lemma_pow_mod_square(2int, 11541735658703547694nat, 23083471317407095388nat, 8999194758858563409123804352480028797519453int, 2623760098071950286609774799540851753127694int);
    lemma_pow_mod_square(2int, 23083471317407095388nat, 46166942634814190776nat, 8999194758858563409123804352480028797519453int, 7985522674358020720124525179356173201090884int);
    lemma_pow_mod_square_mul(2int, 46166942634814190776nat, 92333885269628381553nat, 8999194758858563409123804352480028797519453int, 8819618807898335484463484928839949984819886int);
    lemma_pow_mod_square(2int, 92333885269628381553nat, 184667770539256763106nat, 8999194758858563409123804352480028797519453int, 4307173701400958831223482716526917199813239int);
    lemma_pow_mod_square(2int, 184667770539256763106nat, 369335541078513526212nat, 8999194758858563409123804352480028797519453int, 2840408468732159279275029238609964671067766int);
    lemma_pow_mod_square(2int, 369335541078513526212nat, 738671082157027052424nat, 8999194758858563409123804352480028797519453int, 46371314780530658208789302944549721484680int);
    lemma_pow_mod_square_mul(2int, 738671082157027052424nat, 1477342164314054104849nat, 8999194758858563409123804352480028797519453int, 3462058431088251759603413228102779965033413int);
    lemma_pow_mod_square(2int, 1477342164314054104849nat, 2954684328628108209698nat, 8999194758858563409123804352480028797519453int, 2109785360170761481347720918242590579464354int);
    lemma_pow_mod_square(2int, 2954684328628108209698nat, 5909368657256216419396nat, 8999194758858563409123804352480028797519453int, 4591156409178410674631948776382318890252302int);
    lemma_pow_mod_square(2int, 5909368657256216419396nat, 11818737314512432838792nat, 8999194758858563409123804352480028797519453int, 1506684675267027103513954417877340456789600int);
    lemma_pow_mod_square(2int, 11818737314512432838792nat, 23637474629024865677584nat, 8999194758858563409123804352480028797519453int, 4669517599126543969598894812394758778067786int);
    lemma_pow_mod_square(2int, 23637474629024865677584nat, 47274949258049731355168nat, 8999194758858563409123804352480028797519453int, 4898600242319893668633588827291278996495175int);
    lemma_pow_mod_square_mul(2int, 47274949258049731355168nat, 94549898516099462710337nat, 8999194758858563409123804352480028797519453int, 7392362463308638120520165993210854993092956int);
    lemma_pow_mod_square(2int, 94549898516099462710337nat, 189099797032198925420674nat, 8999194758858563409123804352480028797519453int, 6307221129897207295609682239057381378047336int);
    lemma_pow_mod_square(2int, 189099797032198925420674nat, 378199594064397850841348nat, 8999194758858563409123804352480028797519453int, 8271703315745258547931783474872206408694170int);
    lemma_pow_mod_square_mul(2int, 378199594064397850841348nat, 756399188128795701682697nat, 8999194758858563409123804352480028797519453int, 5335991000103790323386436589262277494037010int);
    lemma_pow_mod_square_mul(2int, 756399188128795701682697nat, 1512798376257591403365395nat, 8999194758858563409123804352480028797519453int, 4941398746576582557911048116469624203498638int);
    lemma_pow_mod_square(2int, 1512798376257591403365395nat, 3025596752515182806730790nat, 8999194758858563409123804352480028797519453int, 7441864804670061813452241486411626953904738int);
    lemma_pow_mod_square_mul(2int, 3025596752515182806730790nat, 6051193505030365613461581nat, 8999194758858563409123804352480028797519453int, 7438826254585073399374621393425213870950410int);
    lemma_pow_mod_square_mul(2int, 6051193505030365613461581nat, 12102387010060731226923163nat, 8999194758858563409123804352480028797519453int, 3747048198715947139797907619946446478054955int);
    lemma_pow_mod_square(2int, 12102387010060731226923163nat, 24204774020121462453846326nat, 8999194758858563409123804352480028797519453int, 1706102830391804263010799662893335311065390int);
    lemma_pow_mod_square_mul(2int, 24204774020121462453846326nat, 48409548040242924907692653nat, 8999194758858563409123804352480028797519453int, 1572397293442564840840534542244062093183508int);
    lemma_pow_mod_square_mul(2int, 48409548040242924907692653nat, 96819096080485849815385307nat, 8999194758858563409123804352480028797519453int, 7101365568162894398680769134562493895167669int);
    lemma_pow_mod_square(2int, 96819096080485849815385307nat, 193638192160971699630770614nat, 8999194758858563409123804352480028797519453int, 5657721512429323591902661287405554140211012int);
    lemma_pow_mod_square_mul(2int, 193638192160971699630770614nat, 387276384321943399261541229nat, 8999194758858563409123804352480028797519453int, 7544076429936418417704113689278189329425304int);
    lemma_pow_mod_square_mul(2int, 387276384321943399261541229nat, 774552768643886798523082459nat, 8999194758858563409123804352480028797519453int, 830500192203472252998245059401339335712690int);
    lemma_pow_mod_square(2int, 774552768643886798523082459nat, 1549105537287773597046164918nat, 8999194758858563409123804352480028797519453int, 331272891281157239928705861698869254744824int);
    lemma_pow_mod_square(2int, 1549105537287773597046164918nat, 3098211074575547194092329836nat, 8999194758858563409123804352480028797519453int, 7331301600720218091361205189465182351979497int);
    lemma_pow_mod_square(2int, 3098211074575547194092329836nat, 6196422149151094388184659672nat, 8999194758858563409123804352480028797519453int, 7888192938106613151537873174685604835783890int);
    lemma_pow_mod_square(2int, 6196422149151094388184659672nat, 12392844298302188776369319344nat, 8999194758858563409123804352480028797519453int, 8210099812543471108674734839088256773662847int);
    lemma_pow_mod_square(2int, 12392844298302188776369319344nat, 24785688596604377552738638688nat, 8999194758858563409123804352480028797519453int, 4653115817664165184878954867596669178058902int);
    lemma_pow_mod_square(2int, 24785688596604377552738638688nat, 49571377193208755105477277376nat, 8999194758858563409123804352480028797519453int, 6885733211637869630463368871783761089372540int);
    lemma_pow_mod_square_mul(2int, 49571377193208755105477277376nat, 99142754386417510210954554753nat, 8999194758858563409123804352480028797519453int, 7439461524737392155863898224968980327199167int);
    lemma_pow_mod_square_mul(2int, 99142754386417510210954554753nat, 198285508772835020421909109507nat, 8999194758858563409123804352480028797519453int, 482131842082622850747065149088964541672197int);
    lemma_pow_mod_square(2int, 198285508772835020421909109507nat, 396571017545670040843818219014nat, 8999194758858563409123804352480028797519453int, 6170823610739066646845679373043537421439359int);
    lemma_pow_mod_square_mul(2int, 396571017545670040843818219014nat, 793142035091340081687636438029nat, 8999194758858563409123804352480028797519453int, 1257901296413663258989930484945201765662361int);
    lemma_pow_mod_square(2int, 793142035091340081687636438029nat, 1586284070182680163375272876058nat, 8999194758858563409123804352480028797519453int, 7295105555226736811387818255140248006490036int);
    lemma_pow_mod_square_mul(2int, 1586284070182680163375272876058nat, 3172568140365360326750545752117nat, 8999194758858563409123804352480028797519453int, 5045199295985020582358954295074385433334467int);
    lemma_pow_mod_square(2int, 3172568140365360326750545752117nat, 6345136280730720653501091504234nat, 8999194758858563409123804352480028797519453int, 8603052425720497287562619516919925301207037int);
    lemma_pow_mod_square(2int, 6345136280730720653501091504234nat, 12690272561461441307002183008468nat, 8999194758858563409123804352480028797519453int, 7992302613290800573582635184675184591494193int);
    lemma_pow_mod_square(2int, 12690272561461441307002183008468nat, 25380545122922882614004366016936nat, 8999194758858563409123804352480028797519453int, 7058610481230892515156705717801339943789555int);
    lemma_pow_mod_square_mul(2int, 25380545122922882614004366016936nat, 50761090245845765228008732033873nat, 8999194758858563409123804352480028797519453int, 4044059794252128647224239943535005091883636int);
    lemma_pow_mod_square_mul(2int, 50761090245845765228008732033873nat, 101522180491691530456017464067747nat, 8999194758858563409123804352480028797519453int, 2825652370475664792528684305386088295004172int);
    lemma_pow_mod_square(2int, 101522180491691530456017464067747nat, 203044360983383060912034928135494nat, 8999194758858563409123804352480028797519453int, 3002194596175911083984905078496072037794003int);
    lemma_pow_mod_square(2int, 203044360983383060912034928135494nat, 406088721966766121824069856270988nat, 8999194758858563409123804352480028797519453int, 2028447632249086940340679900271366816120342int);
}

/// `2` to the power `8999194758858563409123804352480028797519452`, modulo `8999194758858563409123804352480028797519453`.
proof fn lemma_witness_power_large_factor_2()
    ensures
        pow(2int, 8999194758858563409123804352480028797519452nat) % 8999194758858563409123804352480028797519453int == 1int,
{
    lemma_pow_mod_base(2int, 8999194758858563409123804352480028797519453int);
    lemma_pow_mod_square_mul(2int, 1nat, 3nat, 8999194758858563409123804352480028797519453int, 2int);
    lemma_pow_mod_square(2int, 3nat, 6nat, 8999194758858563409123804352480028797519453int, 8int);
    lemma_pow_mod_square(2int, 6nat, 12nat, 8999194758858563409123804352480028797519453int, 64int);
    lemma_pow_mod_square_mul(2int, 12nat, 25nat, 8999194758858563409123804352480028797519453int, 4096int);
    lemma_pow_mod_square_mul(2int, 25nat, 51nat, 8999194758858563409123804352480028797519453int, 33554432int);
    lemma_pow_mod_square_mul(2int, 51nat, 103nat, 8999194758858563409123804352480028797519453int, 2251799813685248int);
    lemma_pow_mod_square(2int, 103nat, 206nat, 8999194758858563409123804352480028797519453int, 10141204801825835211973625643008int);
    lemma_pow_mod_square_mul(2int, 206nat, 413nat, 8999194758858563409123804352480028797519453int, 7164779433181202132984083589311166673079229int);
    lemma_pow_mod_square(2int, 413nat, 826nat, 8999194758858563409123804352480028797519453int, 2459981178477193296520569386428594541524152int);
    lemma_pow_mod_square(2int, 826nat, 1652nat, 8999194758858563409123804352480028797519453int, 1308107620358511851410016461971016128436287int);
    lemma_pow_mod_square_mul(2int, 1652nat, 3305nat, 8999194758858563409123804352480028797519453int, 1695853774343622292716505020150505751333709int);
    lemma_pow_mod_square_mul(2int, 3305nat, 6611nat, 8999194758858563409123804352480028797519453int, 1534263023659581408032911728436503038803543int);
    lemma_pow_mod_square_mul(2int, 6611nat, 13223nat, 8999194758858563409123804352480028797519453int, 240631900803225875881617280673289815721462int);
    lemma_pow_mod_square(2int, 13223nat, 26446nat, 8999194758858563409123804352480028797519453int, 2702430857426408894077315896973461923687003int);
    lemma_pow_mod_square(2int, 26446nat, 52892nat, 8999194758858563409123804352480028797519453int, 1573975102500301266025239562487581874475310int);
    lemma_pow_mod_square_mul(2int, 52892nat, 105785nat, 8999194758858563409123804352480028797519453int, 199786165578073055702281549034437664869765int);
    lemma_pow_mod_square(2int, 105785nat, 211570nat, 8999194758858563409123804352480028797519453int, 4650111059079371959858171194054193344627830int);
    lemma_pow_mod_square(2int, 211570nat, 423140nat, 8999194758858563409123804352480028797519453int, 7746295218290841931374542428056613111331429int);
    lemma_pow_mod_square(2int, 423140nat, 846280nat, 8999194758858563409123804352480028797519453int, 2464007142118378785351983688072735125273515int);
    lemma_pow_mod_square(2int, 846280nat, 1692560nat, 8999194758858563409123804352480028797519453int, 7339047416268902400009321075595028582823630int);
    lemma_pow_mod_square(2int, 1692560nat, 3385120nat, 8999194758858563409123804352480028797519453int, 6189933497996905254522426892532496539332000int);
    lemma_pow_mod_square_mul(2int, 3385120nat, 6770241nat, 8999194758858563409123804352480028797519453int, 1566915189858695986268821444678748642450084int);
    lemma_pow_mod_square_mul(2int, 6770241nat, 13540483nat, 8999194758858563409123804352480028797519453int, 3606087258654208999163034359452440223977818int);
    lemma_pow_mod_square(2int, 13540483nat, 27080966nat, 8999194758858563409123804352480028797519453int, 8221095272271032214487271964704387838963359int);
    lemma_pow_mod_square_mul(2int, 27080966nat, 54161933nat, 8999194758858563409123804352480028797519453int, 4055211683610503885472672500064972243070281int);
    lemma_pow_mod_square(2int, 54161933nat, 108323866nat, 8999194758858563409123804352480028797519453int, 1431334360408409268552604298403229290375018int);
    lemma_pow_mod_square_mul(2int, 108323866nat, 216647733nat, 8999194758858563409123804352480028797519453int, 3639651947646228585299704463256319463304719int);
    lemma_pow_mod_square(2int, 216647733nat, 433295466nat, 8999194758858563409123804352480028797519453int, 5358763975395108000917687285986923365630875int);
    lemma_pow_mod_square_mul(2int, 433295466nat, 866590933nat, 8999194758858563409123804352480028797519453int, 4040882098996242807794631523410899885074808int);
    lemma_pow_mod_square(2int, 866590933nat, 1733181866nat, 8999194758858563409123804352480028797519453int, 6904328357513493228425127162150344448253572int);
    lemma_pow_mod_square(2int, 1733181866nat, 3466363732nat, 8999194758858563409123804352480028797519453int, 8427359699468330561604119204164169338202036int);
    lemma_pow_mod_square(2int, 3466363732nat, 6932727464nat, 8999194758858563409123804352480028797519453int, 2961281692069712385347152213773073143116151int);
    lemma_pow_mod_square_mul(2int, 6932727464nat, 13865454929nat, 8999194758858563409123804352480028797519453int, 7783140961557550526619203431361160520203778int);
    lemma_pow_mod_square(2int, 13865454929nat, 27730909858nat, 8999194758858563409123804352480028797519453int, 5698685479677321145373949810675749407471075int);
    lemma_pow_mod_square(2int, 27730909858nat, 55461819716nat, 8999194758858563409123804352480028797519453int, 108580318754175017979138856899336629664675int);
    lemma_pow_mod_square_mul(2int, 55461819716nat, 110923639433nat, 8999194758858563409123804352480028797519453int, 5948607912723465853152155599608302004187151int);
    lemma_pow_mod_square(2int, 110923639433nat, 221847278866nat, 8999194758858563409123804352480028797519453int, 945252160041078767982488697146037075294284int);
    lemma_pow_mod_square_mul(2int, 221847278866nat, 443694557733nat, 8999194758858563409123804352480028797519453int, 3267799151747815130886524040286775421108575int);
    lemma_pow_mod_square(2int, 443694557733nat, 887389115466nat, 8999194758858563409123804352480028797519453int, 304083634690657532383713718921091330083807int);
    lemma_pow_mod_square_mul(2int, 887389115466nat, 1774778230933nat, 8999194758858563409123804352480028797519453int, 8996731265234546691093844162226785692570835int);
    lemma_pow_mod_square(2int, 1774778230933nat, 3549556461866nat, 8999194758858563409123804352480028797519453int, 5141787104711494679592623093872947220537421int);
    lemma_pow_mod_square_mul(2int, 3549556461866nat, 7099112923733nat, 8999194758858563409123804352480028797519453int, 7122178197123875993252810983716428553119799int);
    lemma_pow_mod_square(2int, 7099112923733nat, 14198225847466nat, 8999194758858563409123804352480028797519453int, 2503832835669752933977395445201710963734335int);
    lemma_pow_mod_square_mul(2int, 14198225847466nat, 28396451694933nat, 8999194758858563409123804352480028797519453int, 8628134469233516088100292086349344447489528int);
    lemma_pow_mod_square(2int, 28396451694933nat, 56792903389866nat, 8999194758858563409123804352480028797519453int, 268541234558032675187908159737225035077332int);
    lemma_pow_mod_square_mul(2int, 56792903389866nat, 113585806779733nat, 8999194758858563409123804352480028797519453int, 6881424111629893903934089152535019741142178int);
    lemma_pow_mod_square_mul(2int, 113585806779733nat, 227171613559467nat, 8999194758858563409123804352480028797519453int, 8621808592695214779284385676131924053766254int);
    lemma_pow_mod_square(2int, 227171613559467nat, 454343227118934nat, 8999194758858563409123804352480028797519453int, 4306438393594496017788401966883269785858512int);
    lemma_pow_mod_square(2int, 454343227118934nat, 908686454237868nat, 8999194758858563409123804352480028797519453int, 7182804498059981656030673234255109961192112int);
    lemma_pow_mod_square_mul(2int, 908686454237868nat, 1817372908475737nat, 8999194758858563409123804352480028797519453int, 7855358458767583545995117163309232340342615int);
    lemma_pow_mod_square_mul(2int, 1817372908475737nat, 3634745816951475nat, 8999194758858563409123804352480028797519453int, 7651637675740726662217515786144837335465120int);
    lemma_pow_mod_square_mul(2int, 3634745816951475nat, 7269491633902951nat, 8999194758858563409123804352480028797519453int, 4083796334606668435717011096347036343836395int);
    lemma_pow_mod_square_mul(2int, 7269491633902951nat, 14538983267805903nat, 8999194758858563409123804352480028797519453int, 5398996117972909256946357177551842388222134int);
    lemma_pow_mod_square_mul(2int, 14538983267805903nat, 29077966535611807nat, 8999194758858563409123804352480028797519453int, 1921334209740528314330727874420380093912648int);
    lemma_pow_mod_square(2int, 29077966535611807nat, 58155933071223614nat, 8999194758858563409123804352480028797519453int, 6339518589379865845211344185094362151725963int);
    lemma_pow_mod_square(2int, 58155933071223614nat, 116311866142447228nat, 8999194758858563409123804352480028797519453int, 6703925239942273373766167036869106065795865int);
    lemma_pow_mod_square_mul(2int, 116311866142447228nat, 232623732284894457nat, 8999194758858563409123804352480028797519453int, 6115859989733457976912640457446520730231618int);
    lemma_pow_mod_square_mul(2int, 232623732284894457nat, 465247464569788915nat, 8999194758858563409123804352480028797519453int, 4222996865945022968528752199290763986455322int);
    lemma_pow_mod_square_mul(2int, 465247464569788915nat, 930494929139577831nat, 8999194758858563409123804352480028797519453int, 2194628787268659897303424144172776649912406int);
    lemma_pow_mod_square_mul(2int, 930494929139577831nat, 1860989858279155663nat, 8999194758858563409123804352480028797519453int, 434312882450395253690086312814479303023712int);
    lemma_pow_mod_square_mul(2int, 1860989858279155663nat, 3721979716558311327nat, 8999194758858563409123804352480028797519453int, 7352868016799835485703326746980530681234197int);
    lemma_pow_mod_square_mul(2int, 3721979716558311327nat, 7443959433116622655nat, 8999194758858563409123804352480028797519453int, 1466864426144165258900057789898924731285551int);
    lemma_pow_mod_square(2int, 7443959433116622655nat, 14887918866233245310nat, 8999194758858563409123804352480028797519453int, 4332714645171512506351418944160617034883622int);
    lemma_pow_mod_square_mul(2int, 14887918866233245310nat, 29775837732466490621nat, 8999194758858563409123804352480028797519453int, 6217559018270090937806435134420125815021655int);
    lemma_pow_mod_square_mul(2int, 29775837732466490621nat, 59551675464932981243nat, 8999194758858563409123804352480028797519453int, 8083048483733157693358821142877693900486823int);
    lemma_pow_mod_square(2int, 59551675464932981243nat, 119103350929865962486nat, 8999194758858563409123804352480028797519453int, 2560952135844810738130996496116707386235832int);
    lemma_pow_mod_square_mul(2int, 119103350929865962486nat, 238206701859731924973nat, 8999194758858563409123804352480028797519453int, 2638390852556970753285640488673071762895828int);
    lemma_pow_mod_square(2int, 238206701859731924973nat, 476413403719463849946nat, 8999194758858563409123804352480028797519453int, 7519217574331387137130406416991530193519716int);
    lemma_pow_mod_square(2int, 476413403719463849946nat, 952826807438927699892nat, 8999194758858563409123804352480028797519453int, 5945763187120442848929643305204437482264136int);
    lemma_pow_mod_square(2int, 952826807438927699892nat, 1905653614877855399784nat, 8999194758858563409123804352480028797519453int, 1961036732250323749144610183494989283413363int);
    lemma_pow_mod_square(2int, 1905653614877855399784nat, 3811307229755710799568nat, 8999194758858563409123804352480028797519453int, 1158186157088624321333567136292370463838614int);
    lemma_pow_mod_square(2int, 3811307229755710799568nat, 7622614459511421599136nat, 8999194758858563409123804352480028797519453int, 8046015692504255437187526517300084254836170int);
    lemma_pow_mod_square(2int, 7622614459511421599136nat, 15245228919022843198272nat, 8999194758858563409123804352480028797519453int, 7342110444132866063943659042925870548405633int);
    lemma_pow_mod_square(2int, 15245228919022843198272nat, 30490457838045686396544nat, 8999194758858563409123804352480028797519453int, 5320142962480225473846124788406213724605468int);
    lemma_pow_mod_square(2int, 30490457838045686396544nat, 60980915676091372793088nat, 8999194758858563409123804352480028797519453int, 3058946465560470327925119566273965440498877int);
    lemma_pow_mod_square_mul(2int, 60980915676091372793088nat, 121961831352182745586177nat, 8999194758858563409123804352480028797519453int, 6035614143856530407767922883570548326582036int);
    lemma_pow_mod_square_mul(2int, 121961831352182745586177nat, 243923662704365491172355nat, 8999194758858563409123804352480028797519453int, 3115895060213872032445693971252984929711580int);
    lemma_pow_mod_square(2int, 243923662704365491172355nat, 487847325408730982344710nat, 8999194758858563409123804352480028797519453int, 8932526457508417708609299191014873350234706int);
    lemma_pow_mod_square_mul(2int, 487847325408730982344710nat, 975694650817461964689421nat, 8999194758858563409123804352480028797519453int, 3388186970111534692810730901259542046228670int);
    lemma_pow_mod_square_mul(2int, 975694650817461964689421nat, 1951389301634923929378843nat, 8999194758858563409123804352480028797519453int, 2653768579091920557877692044269467468643225int);
    lemma_pow_mod_square(2int, 1951389301634923929378843nat, 3902778603269847858757686nat, 8999194758858563409123804352480028797519453int, 7831889134936381214995509794261847435748804int);
    lemma_pow_mod_square(2int, 3902778603269847858757686nat, 7805557206539695717515372nat, 8999194758858563409123804352480028797519453int, 2262807017720388276871882164874239488893997int);
    lemma_pow_mod_square_mul(2int, 7805557206539695717515372nat, 15611114413079391435030745nat, 8999194758858563409123804352480028797519453int, 4055013518210208808041292867929312093080694int);
    lemma_pow_mod_square(2int, 15611114413079391435030745nat, 31222228826158782870061490nat, 8999194758858563409123804352480028797519453int, 7452665395523594864474549927861253501282670int);
    lemma_pow_mod_square_mul(2int, 31222228826158782870061490nat, 62444457652317565740122981nat, 8999194758858563409123804352480028797519453int, 6367556665518818992554240478881144858153423int);
    lemma_pow_mod_square(2int, 62444457652317565740122981nat, 124888915304635131480245962nat, 8999194758858563409123804352480028797519453int, 6615749807889939421990290322670374363373844int);
    lemma_pow_mod_square(2int, 124888915304635131480245962nat, 249777830609270262960491924nat, 8999194758858563409123804352480028797519453int, 4196566223050456584061975431033940242608221int);
    lemma_pow_mod_square_mul(2int, 249777830609270262960491924nat, 499555661218540525920983849nat, 8999194758858563409123804352480028797519453int, 318033712081037875792198416296947725092665int);
    lemma_pow_mod_square_mul(2int, 499555661218540525920983849nat, 999111322437081051841967699nat, 8999194758858563409123804352480028797519453int, 3603549952642175135504835658245543672314905int);
    lemma_pow_mod_square_mul(2int, 999111322437081051841967699nat, 1998222644874162103683935399nat, 8999194758858563409123804352480028797519453int, 3763725717523345470718625789248078864977945int);
    lemma_pow_mod_square(2int, 1998222644874162103683935399nat, 3996445289748324207367870798nat, 8999194758858563409123804352480028797519453int, 3177944516490153305175385395553464154884756int);
    lemma_pow_mod_square(2int, 3996445289748324207367870798nat, 7992890579496648414735741596nat, 8999194758858563409123804352480028797519453int, 8399865981502051091268971512793077983926235int);
    lemma_pow_mod_square_mul(2int, 7992890579496648414735741596nat, 15985781158993296829471483193nat, 8999194758858563409123804352480028797519453int, 283334509243272145148348782998085416669186int);
    lemma_pow_mod_square_mul(2int, 15985781158993296829471483193nat, 31971562317986593658942966387nat, 8999194758858563409123804352480028797519453int, 4236120866234455303384800310161037181961434int);
    lemma_pow_mod_square(2int, 31971562317986593658942966387nat, 63943124635973187317885932774nat, 8999194758858563409123804352480028797519453int, 4384052705183122746389261843888294195710755int);
    lemma_pow_mod_square(2int, 63943124635973187317885932774nat, 127886249271946374635771865548nat, 8999194758858563409123804352480028797519453int, 7700793961066711869987632597809424362898830int);
    lemma_pow_mod_square_mul(2int, 127886249271946374635771865548nat, 255772498543892749271543731097nat, 8999194758858563409123804352480028797519453int, 4989808176094434970792706401219407388081266int);
    lemma_pow_mod_square(2int, 255772498543892749271543731097nat, 511544997087785498543087462194nat, 8999194758858563409123804352480028797519453int, 7793778198993794304206512710953401360438880int);
    lemma_pow_mod_square(2int, 511544997087785498543087462194nat, 1023089994175570997086174924388nat, 8999194758858563409123804352480028797519453int, 1776600030151572702683494285744354956008741int);
    lemma_pow_mod_square_mul(2int, 1023089994175570997086174924388nat, 2046179988351141994172349848777nat, 8999194758858563409123804352480028797519453int, 5854367633938663113455747179031753485460988int);
    lemma_pow_mod_square(2int, 2046179988351141994172349848777nat, 4092359976702283988344699697554nat, 8999194758858563409123804352480028797519453int, 1713755164170912737212673422802924770239751int);
    lemma_pow_mod_square(2int, 4092359976702283988344699697554nat, 8184719953404567976689399395108nat, 8999194758858563409123804352480028797519453int, 2417217662470797782626681585060478922606245int);
    lemma_pow_mod_square_mul(2int, 8184719953404567976689399395108nat, 16369439906809135953378798790217nat, 8999194758858563409123804352480028797519453int, 2595934829232773500803421559383305858152863int);
    lemma_pow_mod_square_mul(2int, 16369439906809135953378798790217nat, 32738879813618271906757597580435nat, 8999194758858563409123804352480028797519453int, 7528974757760639080950213142991458676369424int);
    lemma_pow_mod_square_mul(2int, 32738879813618271906757597580435nat, 65477759627236543813515195160871nat, 8999194758858563409123804352480028797519453int, 4575303409973613042364096685713056209637189int);
    lemma_pow_mod_square_mul(2int, 65477759627236543813515195160871nat, 130955519254473087627030390321743nat, 8999194758858563409123804352480028797519453int, 6135864546140243881625099863438400061900788int);
    lemma_pow_mod_square(2int, 130955519254473087627030390321743nat, 261911038508946175254060780643486nat, 8999194758858563409123804352480028797519453int, 6209961490824965256889834761547903014953359int);
    lemma_pow_mod_square(2int, 261911038508946175254060780643486nat, 523822077017892350508121561286972nat, 8999194758858563409123804352480028797519453int, 4797038448746477474546087862696109233926442int);
    lemma_pow_mod_square_mul(2int, 523822077017892350508121561286972nat, 1047644154035784701016243122573945nat, 8999194758858563409123804352480028797519453int, 7060550253400634379792582303321615396053493int);
    lemma_pow_mod_square(2int, 1047644154035784701016243122573945nat, 2095288308071569402032486245147890nat, 8999194758858563409123804352480028797519453int, 3586554893248446881566139284211651907410352int);
    lemma_pow_mod_square_mul(2int, 2095288308071569402032486245147890nat, 4190576616143138804064972490295781nat, 8999194758858563409123804352480028797519453int, 5212928196240823485544112593118186760343950int);
    lemma_pow_mod_square(2int, 4190576616143138804064972490295781nat, 8381153232286277608129944980591562nat, 8999194758858563409123804352480028797519453int, 7247155113005047451439604650305535484053283int);
    lemma_pow_mod_square(2int, 8381153232286277608129944980591562nat, 16762306464572555216259889961183124nat, 8999194758858563409123804352480028797519453int, 6475604194336744869505793779631185088830148int);
    lemma_pow_mod_square_mul(2int, 16762306464572555216259889961183124nat, 33524612929145110432519779922366249nat, 8999194758858563409123804352480028797519453int, 3817459604493073495857791303402170324298662int);
    lemma_pow_mod_square_mul(2int, 33524612929145110432519779922366249nat, 67049225858290220865039559844732499nat, 8999194758858563409123804352480028797519453int, 565041525024883412217207018324279866583984int);
    lemma_pow_mod_square(2int, 67049225858290220865039559844732499nat, 134098451716580441730079119689464998nat, 8999194758858563409123804352480028797519453int, 383133720139996778243619889271338559215062int);
    lemma_pow_mod_square(2int, 134098451716580441730079119689464998nat, 268196903433160883460158239378929996nat, 8999194758858563409123804352480028797519453int, 6013554364960079164389145236048122045378396int);
    lemma_pow_mod_square(2int, 268196903433160883460158239378929996nat, 536393806866321766920316478757859992nat, 8999194758858563409123804352480028797519453int, 8082926129800110735695321987296228243890186int);
    lemma_pow_mod_square_mul(2int, 536393806866321766920316478757859992nat, 1072787613732643533840632957515719985nat, 8999194758858563409123804352480028797519453int, 5177923967369040443006992028812463969199318int);
    lemma_pow_mod_square_mul(2int, 1072787613732643533840632957515719985nat, 2145575227465287067681265915031439971nat, 8999194758858563409123804352480028797519453int, 8094403997166394421025581951243092515420673int);
    lemma_pow_mod_square(2int, 2145575227465287067681265915031439971nat, 4291150454930574135362531830062879942nat, 8999194758858563409123804352480028797519453int, 6116187861409368478872639709536217827527516int);
    lemma_pow_mod_square_mul(2int, 4291150454930574135362531830062879942nat, 8582300909861148270725063660125759885nat, 8999194758858563409123804352480028797519453int, 882542801450764830079248244034154245837703int);
    lemma_pow_mod_square(2int, 8582300909861148270725063660125759885nat, 17164601819722296541450127320251519770nat, 8999194758858563409123804352480028797519453int, 3779511554941210732375391907409258323950851int);
    lemma_pow_mod_square_mul(2int, 17164601819722296541450127320251519770nat, 34329203639444593082900254640503039541nat, 8999194758858563409123804352480028797519453int, 3082867903382292244920187481631791143458169int);
    lemma_pow_mod_square(2int, 34329203639444593082900254640503039541nat, 68658407278889186165800509281006079082nat, 8999194758858563409123804352480028797519453int, 8886412411701869602521719583387802864905374int);
    lemma_pow_mod_square_mul(2int, 68658407278889186165800509281006079082nat, 137316814557778372331601018562012158165nat, 8999194758858563409123804352480028797519453int, 5335427808663415434631802318374780638064597int);
    lemma_pow_mod_square(2int, 137316814557778372331601018562012158165nat, 274633629115556744663202037124024316330nat, 8999194758858563409123804352480028797519453int, 8890839365666414139601500094970471456886106int);
    lemma_pow_mod_square_mul(2int, 274633629115556744663202037124024316330nat, 549267258231113489326404074248048632661nat, 8999194758858563409123804352480028797519453int, 3803793386098449867597963078870411795496374int);
    lemma_pow_mod_square(2int, 549267258231113489326404074248048632661nat, 1098534516462226978652808148496097265322nat, 8999194758858563409123804352480028797519453int, 6635180604161992162244440564772168422695983int);
    lemma_pow_mod_square(2int, 1098534516462226978652808148496097265322nat, 2197069032924453957305616296992194530644nat, 8999194758858563409123804352480028797519453int, 7829329186959376398384018632354293006714062int);
    lemma_pow_mod_square(2int, 2197069032924453957305616296992194530644nat, 4394138065848907914611232593984389061288nat, 8999194758858563409123804352480028797519453int, 2500521856348211860536856880779884347615222int);
    lemma_pow_mod_square_mul(2int, 4394138065848907914611232593984389061288nat, 8788276131697815829222465187968778122577nat, 8999194758858563409123804352480028797519453int, 5290805280091859767664854688260208825139248int);
    lemma_pow_mod_square_mul(2int, 8788276131697815829222465187968778122577nat, 17576552263395631658444930375937556245155nat, 8999194758858563409123804352480028797519453int, 1818872030855439674655952459215294152773653int);
    lemma_pow_mod_square(2int, 17576552263395631658444930375937556245155nat, 35153104526791263316889860751875112490310nat, 8999194758858563409123804352480028797519453int, 259504401667409016488741717199400531095629int);
    lemma_pow_mod_square(2int, 35153104526791263316889860751875112490310nat, 70306209053582526633779721503750224980620nat, 8999194758858563409123804352480028797519453int, 2589773800772394210768683292353091132495243int);
    lemma_pow_mod_square_mul(2int, 70306209053582526633779721503750224980620nat, 140612418107165053267559443007500449961241nat, 8999194758858563409123804352480028797519453int, 6116318975208107201873488613055444618782595int);
    lemma_pow_mod_square(2int, 140612418107165053267559443007500449961241nat, 281224836214330106535118886015000899922482nat, 8999194758858563409123804352480028797519453int, 4015746265519310685288771613313225257976431int);
    lemma_pow_mod_square_mul(2int, 281224836214330106535118886015000899922482nat, 562449672428660213070237772030001799844965nat, 8999194758858563409123804352480028797519453int, 7351102255527464935749443109884466266057003int);
    lemma_pow_mod_square_mul(2int, 562449672428660213070237772030001799844965nat, 1124899344857320426140475544060003599689931nat, 8999194758858563409123804352480028797519453int, 525803144300442167649739652909651052733851int);
    lemma_pow_mod_square_mul(2int, 1124899344857320426140475544060003599689931nat, 2249798689714640852280951088120007199379863nat, 8999194758858563409123804352480028797519453int, 7293817588728300193236654986933533586298411int);
    lemma_pow_mod_square(2int, 2249798689714640852280951088120007199379863nat, 4499597379429281704561902176240014398759726nat, 8999194758858563409123804352480028797519453int, 5588440418598036977349505621387038375077368int);
    lemma_pow_mod_square(2int, 4499597379429281704561902176240014398759726nat, 8999194758858563409123804352480028797519452nat, 8999194758858563409123804352480028797519453int, 8999194758858563409123804352480028797519452int);
}

/// `8999194758858563409123804352480028797519453`, the largest prime factor of the field's order minus one, is prime.
proof fn lemma_large_factor_prime()
    ensures
        is_prime(8999194758858563409123804352480028797519453nat),
{
    lemma_prime_325086459374267();
    lemma_prime_22160661629();
    lemma_witness_power_large_factor_0();
    lemma_witness_power_large_factor_1();
    lemma_witness_power_large_factor_2();
    let qs: Seq<nat> = Seq::empty().push(325086459374267nat).push(22160661629nat);
    let us: Seq<int> = seq![-4345681898746351915746237614486091385898081int, -2097244281951113620607736031768147273547460int];
    let ws: Seq<int> = seq![929013922055274533784510842395017604415785int, 1740489010764784368753332325482649997273657int];
    assert(qs[0] == 325086459374267nat && us[0] == -4345681898746351915746237614486091385898081int && ws[0] == 929013922055274533784510842395017604415785int);
    assert(qs[1] == 22160661629nat && us[1] == -2097244281951113620607736031768147273547460int && ws[1] == 1740489010764784368753332325482649997273657int);
    lemma_seq_product_push(Seq::empty(), 325086459374267nat);
    lemma_seq_product_push(Seq::empty().push(325086459374267nat), 22160661629nat);
    assert(((8999194758858563409123804352480028797519453nat - 1) as nat) / 325086459374267nat == 27682465692912573825889481556nat);
    assert(((8999194758858563409123804352480028797519453nat - 1) as nat) / 22160661629nat == 406088721966766121824069856270988nat);
    assert forall|i: int| 0 <= i < qs.len() implies is_prime(#[trigger] qs[i]) && ((8999194758858563409123804352480028797519453nat - 1) as nat) % qs[i] == 0 by {
        assert(i == 0 || i == 1);
    }
    assert forall|i: int| 0 <= i < qs.len() implies us[i] * (pow(2int, (((8999194758858563409123804352480028797519453nat - 1) as nat) / #[trigger] qs[i]) as nat) % 8999194758858563409123804352480028797519453int - 1) + ws[i] * 8999194758858563409123804352480028797519453int == 1 by {
        assert(i == 0 || i == 1);
    }
    assert forall|i: int, j: int| 0 <= i < j < qs.len() implies qs[i] != qs[j] by {
        assert((i == 0 && j == 1));
    }
    assert(seq_product(qs) == 7204131026362786056900943nat);
    assert(seq_product(qs) * seq_product(qs) > 8999194758858563409123804352480028797519453nat);
    lemma_pocklington(8999194758858563409123804352480028797519453nat, 2nat, qs, us, ws);
}

/// `2` to the power `3216734728497058061019394250637312`, modulo the field's order.
proof fn lemma_witness_power_modulus_0()
    ensures
        pow(2int, 3216734728497058061019394250637312nat) % 28948022309329048855892746252171976963363056481941560715954676764349967630337int == 23769141747542929275130461462532321991434488634464651886715445812013527626387int,
{
    lemma_pow_mod_base(2int, 28948022309329048855892746252171976963363056481941560715954676764349967630337int);
    lemma_pow_mod_square(2int, 1nat, 2nat, 28948022309329048855892746252171976963363056481941560715954676764349967630337int, 2int);
    lemma_pow_mod_square(2int, 2nat, 4nat, 28948022309329048855892746252171976963363056481941560715954676764349967630337int, 4int);
    lemma_pow_mod_square_mul(2int, 4nat, 9nat, 28948022309329048855892746252171976963363056481941560715954676764349967630337int, 16int);
    lemma_pow_mod_square_mul(2int, 9nat, 19nat, 28948022309329048855892746252171976963363056481941560715954676764349967630337int, 512int);
    lemma_pow_mod_square_mul(2int, 19nat, 39nat, 28948022309329048855892746252171976963363056481941560715954676764349967630337int, 524288int);
    lemma_pow_mod_square_mul(2int, 39nat, 79nat, 28948022309329048855892746252171976963363056481941560715954676764349967630337int, 549755813888int);
    lemma_pow_mod_square(2int, 79nat, 158nat, 28948022309329048855892746252171976963363056481941560715954676764349967630337int, 604462909807314587353088int);
    lemma_pow_mod_square_mul(2int, 158nat, 317nat, 28948022309329048855892746252171976963363056481941560715954676764349967630337int, 365375409332725729550921208179070754913983135744int);
    lemma_pow_mod_square(2int, 317nat, 634nat, 28948022309329048855892746252171976963363056481941560715954676764349967630337int, 28948022309329048855472526511909200111309517778233355956753205285093074010113int);
    lemma_pow_mod_square(2int, 634nat, 1268nat, 28948022309329048855892746252171976963363056481941560715954676764349967630337int, 15963645782755427955519041940682441360080755073631751082996809856333081963055int);
    lemma_pow_mod_square_mul(2int, 1268nat, 2537nat, 28948022309329048855892746252171976963363056481941560715954676764349967630337int, 4891337787630092306848700901167955623517083634408921506446235620123967349423int);
    lemma_pow_mod_square_mul(2int, 2537nat, 5075nat, 28948022309329048855892746252171976963363056481941560715954676764349967630337int, 19669117048726115217771346334606161637355374449803254598193519582308470553871int);
    lemma_pow_mod_square(2int, 5075nat, 10150nat, 28948022309329048855892746252171976963363056481941560715954676764349967630337int, 26802954368605435664971510958291384684546360623127769629544311765314886148969int);
    lemma_pow_mod_square(2int, 10150nat, 20300nat, 28948022309329048855892746252171976963363056481941560715954676764349967630337int, 21983763383710062964033831240670339294939275100987708955577626806160290635883int);
    lemma_pow_mod_square(2int, 20300nat, 40600nat, 28948022309329048855892746252171976963363056481941560715954676764349967630337int, 20814253669162195469151460087554550771521873963744221369395724468062193059808int);
    lemma_pow_mod_square_mul(2int, 40600nat, 81201nat, 28948022309329048855892746252171976963363056481941560715954676764349967630337int, 14370251309510553602587185760633075469964963824878705745626560505407528275218int);
    lemma_pow_mod_square_mul(2int, 81201nat, 162403nat, 28948022309329048855892746252171976963363056481941560715954676764349967630337int, 20951990883881940113375326080080884809615940494210419567511138756937282879432int);
    lemma_pow_mod_square_mul(2int, 162403nat, 324807nat, 28948022309329048855892746252171976963363056481941560715954676764349967630337int, 10904680899906625813229043303462890468537134310853861028912037576892338098508int);
    lemma_pow_mod_square(2int, 324807nat, 649614nat, 28948022309329048855892746252171976963363056481941560715954676764349967630337int, 22128394150100443593809483041510000364790133583242184287679343484701776816329int);
    lemma_pow_mod_square(2int, 649614nat, 1299228nat, 28948022309329048855892746252171976963363056481941560715954676764349967630337int, 5940504899090505380898838908955135566509877172486633679663829264530600499742int);
    lemma_pow_mod_square_mul(2int, 1299228nat, 2598457nat, 28948022309329048855892746252171976963363056481941560715954676764349967630337int, 22286368189214248445102407371138983008540594067239685731169084284707372832319int);
    lemma_pow_mod_square_mul(2int, 2598457nat, 5196915nat, 28948022309329048855892746252171976963363056481941560715954676764349967630337int, 6002236509699653296007754663723266563272895390066876575081582745621415727647int);
    lemma_pow_mod_square(2int, 5196915nat, 10393830nat, 28948022309329048855892746252171976963363056481941560715954676764349967630337int, 5433634837887963058694435299619505985777133017151027017207218089083023672801int);
    lemma_pow_mod_square(2int, 10393830nat, 20787660nat, 28948022309329048855892746252171976963363056481941560715954676764349967630337int, 22300501836913799813372010315234539507117617063872031264669170790139124518052int);
    lemma_pow_mod_square_mul(2int, 20787660nat, 41575321nat, 28948022309329048855892746252171976963363056481941560715954676764349967630337int, 9703820207556510467129393850647138226689121014650359464003043312372379672898int);
    lemma_pow_mod_square_mul(2int, 41575321nat, 83150643nat, 28948022309329048855892746252171976963363056481941560715954676764349967630337int, 20395035904753985938122350733617161792580838626084313411320312195559628870155int);
    lemma_pow_mod_square_mul(2int, 83150643nat, 166301287nat, 28948022309329048855892746252171976963363056481941560715954676764349967630337int, 2948580770735038081901862919123908360415276376822937135522666788673744334585int);
    lemma_pow_mod_square_mul(2int, 166301287nat, 332602575nat, 28948022309329048855892746252171976963363056481941560715954676764349967630337int, 9774238416963742385737031871248640504229584494173627071601220868945902758836int);
    lemma_pow_mod_square(2int, 332602575nat, 665205150nat, 28948022309329048855892746252171976963363056481941560715954676764349967630337int, 5714292112803537131946571256407175995130748439984381537920823453119849608501int);
    lemma_pow_mod_square_mul(2int, 665205150nat, 1330410301nat, 28948022309329048855892746252171976963363056481941560715954676764349967630337int, 4730631791695882430233206409058352495665157433297398892276351532799274104397int);
    lemma_pow_mod_square_mul(2int, 1330410301nat, 2660820603nat, 28948022309329048855892746252171976963363056481941560715954676764349967630337int, 3009956332617588467758386214654346819474691256809542646217315988806760846565int);
    lemma_pow_mod_square(2int, 2660820603nat, 5321641206nat, 28948022309329048855892746252171976963363056481941560715954676764349967630337int, 15714729257033768579611655263876973954929662801240047035612274872238553822347int);
    lemma_pow_mod_square(2int, 5321641206nat, 10643282412nat, 28948022309329048855892746252171976963363056481941560715954676764349967630337int, 13159256701734909240883651810454325342719795708028361907672682842369146410705int);
    lemma_pow_mod_square_mul(2int, 10643282412nat, 21286564825nat, 28948022309329048855892746252171976963363056481941560715954676764349967630337int, 22305022998414803983065241837663903156372035321746507092769723532708240868039int);
    lemma_pow_mod_square(2int, 21286564825nat, 42573129650nat, 28948022309329048855892746252171976963363056481941560715954676764349967630337int, 11434166948306750281118894790790352202553982619193073513676950402067545375158int);
    lemma_pow_mod_square(2int, 42573129650nat, 85146259300nat, 28948022309329048855892746252171976963363056481941560715954676764349967630337int, 1333182131025657242688244596928656225271537031334437318249745839678218760479int);
    lemma_pow_mod_square(2int, 85146259300nat, 170292518600nat, 28948022309329048855892746252171976963363056481941560715954676764349967630337int, 248024166670394445382818924541283962414332383482942057523810686313002233654int);
    lemma_pow_mod_square_mul(2int, 170292518600nat, 340585037201nat, 28948022309329048855892746252171976963363056481941560715954676764349967630337int, 6139532076590376697641566346183723965914387672502171016526080240602372192816int);
    lemma_pow_mod_square_mul(2int, 340585037201nat, 681170074403nat, 28948022309329048855892746252171976963363056481941560715954676764349967630337int, 23922683355718698330448186687471536589293192315994094945951307758520898263495int);
    lemma_pow_mod_square_mul(2int, 681170074403nat, 1362340148807nat, 28948022309329048855892746252171976963363056481941560715954676764349967630337int, 13617956505956409685744896606714750343922388689199854550253274108054525716046int);
    lemma_pow_mod_square(2int, 1362340148807nat, 2724680297614nat, 28948022309329048855892746252171976963363056481941560715954676764349967630337int, 28825360306944819850145471154289463989740971859760909381396078737734939034945int);
    lemma_pow_mod_square(2int, 2724680297614nat, 5449360595228nat, 28948022309329048855892746252171976963363056481941560715954676764349967630337int, 25105134341228891339875226964891688013313988279261544143660720191940311151372int);
    lemma_pow_mod_square(2int, 5449360595228nat, 10898721190456nat, 28948022309329048855892746252171976963363056481941560715954676764349967630337int, 2533451838919468466830113215953678161433122170554376341790957494096258138328int);
    lemma_pow_mod_square(2int, 10898721190456nat, 21797442380912nat, 28948022309329048855892746252171976963363056481941560715954676764349967630337int, 7674673211609268052453289108844949875495283370540677974290035384876863548007int);
    lemma_pow_mod_square_mul(2int, 21797442380912nat, 43594884761825nat, 28948022309329048855892746252171976963363056481941560715954676764349967630337int, 5532782743276698923534115381708228657955805142445229801011928895715111493968int);
    lemma_pow_mod_square_mul(2int, 43594884761825nat, 87189769523651nat, 28948022309329048855892746252171976963363056481941560715954676764349967630337int, 25847253806597050832851321640936475134174138821692718217561076779457248621891int);
    lemma_pow_mod_square_mul(2int, 87189769523651nat, 174379539047303nat, 28948022309329048855892746252171976963363056481941560715954676764349967630337int, 20077948264858440595020121083892327813583927293715202899844840911229302697100int);
    lemma_pow_mod_square_mul(2int, 174379539047303nat, 348759078094607nat, 28948022309329048855892746252171976963363056481941560715954676764349967630337int, 2973886324761076376245044507546294671819172743793888914717128516748121389571int);
    lemma_pow_mod_square_mul(2int, 348759078094607nat, 697518156189215nat, 28948022309329048855892746252171976963363056481941560715954676764349967630337int, 8926891940965113024046176855253107383868463328776555580793809398557065006540int);
    lemma_pow_mod_square_mul(2int, 697518156189215nat, 1395036312378431nat, 28948022309329048855892746252171976963363056481941560715954676764349967630337int, 1359577748846554254405447694975449761972536977238209835186094668900191235245int);
    lemma_pow_mod_square_mul(2int, 1395036312378431nat, 2790072624756863nat, 28948022309329048855892746252171976963363056481941560715954676764349967630337int, 15858628655291459802159907291005713379909042207688743104272866873553538712281int);
    lemma_pow_mod_square_mul(2int, 2790072624756863nat, 5580145249513727nat, 28948022309329048855892746252171976963363056481941560715954676764349967630337int, 6335899457434919990992908030081224633904107253250711559657792906832428104413int);
    lemma_pow_mod_square(2int, 5580145249513727nat, 11160290499027454nat, 28948022309329048855892746252171976963363056481941560715954676764349967630337int, 13062563923072796480676884452630454641018588845656613791891630831096104751079int);
    lemma_pow_mod_square_mul(2int, 11160290499027454nat, 22320580998054909nat, 28948022309329048855892746252171976963363056481941560715954676764349967630337int, 23515005074241482015611924784606869034931403987183081295915014489891045908756int);
    lemma_pow_mod_square_mul(2int, 22320580998054909nat, 44641161996109819nat, 28948022309329048855892746252171976963363056481941560715954676764349967630337int, 1806015896253812964338689615882683167624482707209802945932564782312140125533int);
    lemma_pow_mod_square(2int, 44641161996109819nat, 89282323992219638nat, 28948022309329048855892746252171976963363056481941560715954676764349967630337int, 9654901128598657654693891450146608410439006457506457145885103072866711503431int);
    lemma_pow_mod_square(2int, 89282323992219638nat, 178564647984439276nat, 28948022309329048855892746252171976963363056481941560715954676764349967630337int, 17293120758508459247164721432247291276466908242466638920086224712541398219781int);
    lemma_pow_mod_square(2int, 178564647984439276nat, 357129295968878552nat, 28948022309329048855892746252171976963363056481941560715954676764349967630337int, 28077487562753477075862359489261527290615302352077865901500769626749438131451int);
    lemma_pow_mod_square_mul(2int, 357129295968878552nat, 714258591937757105nat, 28948022309329048855892746252171976963363056481941560715954676764349967630337int, 10599377728252959104201395947488519734935210679066830090087421105618706264249int);
    lemma_pow_mod_square_mul(2int, 714258591937757105nat, 1428517183875514211nat, 28948022309329048855892746252171976963363056481941560715954676764349967630337int, 15484739504590749531910119415920537878100919131123338584360228156882624800314int);
    lemma_pow_mod_square_mul(2int, 1428517183875514211nat, 2857034367751028423nat, 28948022309329048855892746252171976963363056481941560715954676764349967630337int, 12046968329235666423905304126621552599761084150343806496610042191327101229709int);
    lemma_pow_mod_square_mul(2int, 2857034367751028423nat, 5714068735502056847nat, 28948022309329048855892746252171976963363056481941560715954676764349967630337int, 22298305477189403253539295764869092289080782397234315622769415152091350903997int);
    lemma_pow_mod_square_mul(2int, 5714068735502056847nat, 11428137471004113695nat, 28948022309329048855892746252171976963363056481941560715954676764349967630337int, 11841012594799895008092221826751552209634597118093261179420110453886521758108int);
    lemma_pow_mod_square_mul(2int, 11428137471004113695nat, 22856274942008227391nat, 28948022309329048855892746252171976963363056481941560715954676764349967630337int, 24125039311746175926789866840777440859098538392807302286027090983752250647504int);
    lemma_pow_mod_square_mul(2int, 22856274942008227391nat, 45712549884016454783nat, 28948022309329048855892746252171976963363056481941560715954676764349967630337int, 679742027450963851397576221446811654329829056964652775758766516789599796633int);
    lemma_pow_mod_square(2int, 45712549884016454783nat, 91425099768032909566nat, 28948022309329048855892746252171976963363056481941560715954676764349967630337int, 15993412098436508624794717111532514373686092406051904540856837176212225180360int);
    lemma_pow_mod_square(2int, 91425099768032909566nat, 182850199536065819132nat, 28948022309329048855892746252171976963363056481941560715954676764349967630337int, 424644387259697641424639046495791731061659356506645401635927620409721609833int);
    lemma_pow_mod_square_mul(2int, 182850199536065819132nat, 365700399072131638265nat, 28948022309329048855892746252171976963363056481941560715954676764349967630337int, 5729242679363895311075826755224088105842456030232160970050732605202780685746int);
    lemma_pow_mod_square(2int, 365700399072131638265nat, 731400798144263276530nat, 28948022309329048855892746252171976963363056481941560715954676764349967630337int, 20373273667786788161373176654594033148421967277038228864224081985298705324645int);
    lemma_pow_mod_square_mul(2int, 731400798144263276530nat, 1462801596288526553061nat, 28948022309329048855892746252171976963363056481941560715954676764349967630337int, 17989511411097636849967683269769111762408192727147296112965002844060756567449int);
    lemma_pow_mod_square_mul(2int, 1462801596288526553061nat, 2925603192577053106123nat, 28948022309329048855892746252171976963363056481941560715954676764349967630337int, 3100042988135642726377333329253343528096234553524403966483091926870660050595int);
    lemma_pow_mod_square_mul(2int, 2925603192577053106123nat, 5851206385154106212247nat, 28948022309329048855892746252171976963363056481941560715954676764349967630337int, 17709180874828246777008749957179174820341572473099931243946055691279202649327int);
    lemma_pow_mod_square_mul(2int, 5851206385154106212247nat, 11702412770308212424495nat, 28948022309329048855892746252171976963363056481941560715954676764349967630337int, 24091050705952788516962716569605907140029581965938040733773039807797072028363int);
    lemma_pow_mod_square(2int, 11702412770308212424495nat, 23404825540616424848990nat, 28948022309329048855892746252171976963363056481941560715954676764349967630337int, 10755052250733891819181540993414536616874319976244675600528253742437016091264int);
    lemma_pow_mod_square_mul(2int, 23404825540616424848990nat, 46809651081232849697981nat, 28948022309329048855892746252171976963363056481941560715954676764349967630337int, 4961939142741735922460130320026497459068279214359297607906317895621657876228int);
    lemma_pow_mod_square(2int, 46809651081232849697981nat, 93619302162465699395962nat, 28948022309329048855892746252171976963363056481941560715954676764349967630337int, 1462900319817161497731310431234702080133193375619164385093336482346422538614int);
    lemma_pow_mod_square(2int, 93619302162465699395962nat, 187238604324931398791924nat, 28948022309329048855892746252171976963363056481941560715954676764349967630337int, 213201865340492494102218988446516205500532914479971479319469789702909565381int);
    lemma_pow_mod_square(2int, 187238604324931398791924nat, 374477208649862797583848nat, 28948022309329048855892746252171976963363056481941560715954676764349967630337int, 26980154109637877122426689778686367822603959389479673883432765617123522179825int);
    lemma_pow_mod_square_mul(2int, 374477208649862797583848nat, 748954417299725595167697nat, 28948022309329048855892746252171976963363056481941560715954676764349967630337int, 12433283263219059392281499132910224393436802302642087270980386824250192958776int);
    lemma_pow_mod_square(2int, 748954417299725595167697nat, 1497908834599451190335394nat, 28948022309329048855892746252171976963363056481941560715954676764349967630337int, 13316061317792802117748175327565536747357827392234445145961145405981867784665int);
    lemma_pow_mod_square(2int, 1497908834599451190335394nat, 2995817669198902380670788nat, 28948022309329048855892746252171976963363056481941560715954676764349967630337int, 3833862666252161876815219774121162185339206030555949927070811917394164052728int);
    lemma_pow_mod_square(2int, 2995817669198902380670788nat, 5991635338397804761341576nat, 28948022309329048855892746252171976963363056481941560715954676764349967630337int, 2118531869533408938727558074593678574700155352884561029008003852473482136868int);
    lemma_pow_mod_square(2int, 5991635338397804761341576nat, 11983270676795609522683152nat, 28948022309329048855892746252171976963363056481941560715954676764349967630337int, 9191584178142153325607381157318163191233896744135440460124900108210318785607int);
    lemma_pow_mod_square(2int, 11983270676795609522683152nat, 23966541353591219045366304nat, 28948022309329048855892746252171976963363056481941560715954676764349967630337int, 27508602082725581823632056278445973685568628312748238495593218476526001905806int);
    lemma_pow_mod_square(2int, 23966541353591219045366304nat, 47933082707182438090732608nat, 28948022309329048855892746252171976963363056481941560715954676764349967630337int, 22569197011872247928565880588106159502941905036289260425247835359781503567371int);
    lemma_pow_mod_square(2int, 47933082707182438090732608nat, 95866165414364876181465216nat, 28948022309329048855892746252171976963363056481941560715954676764349967630337int, 10368641716809847969496252839949846859572724575210624982738778403889253085659int);
    lemma_pow_mod_square(2int, 95866165414364876181465216nat, 191732330828729752362930432nat, 28948022309329048855892746252171976963363056481941560715954676764349967630337int, 19112631627015949508134446735597567385973183378668780253268209787119318798012int);
    lemma_pow_mod_square(2int, 191732330828729752362930432nat, 383464661657459504725860864nat, 28948022309329048855892746252171976963363056481941560715954676764349967630337int, 9548474247964589954214282427565037511332382019365974639811718324146849104378int);
    lemma_pow_mod_square(2int, 383464661657459504725860864nat, 766929323314919009451721728nat, 28948022309329048855892746252171976963363056481941560715954676764349967630337int, 5362550083440073842569362343647010187644375367857662746497087603455671070417int);
    lemma_pow_mod_square(2int, 766929323314919009451721728nat, 1533858646629838018903443456nat, 28948022309329048855892746252171976963363056481941560715954676764349967630337int, 28180529289810280707837600046545617753992084209294175772395941610900833463808int);
    lemma_pow_mod_square(2int, 1533858646629838018903443456nat, 3067717293259676037806886912nat, 28948022309329048855892746252171976963363056481941560715954676764349967630337int, 11399455665167471875788663524571520876004430199202620362539363193158892417006int);
    lemma_pow_mod_square(2int, 3067717293259676037806886912nat, 6135434586519352075613773824nat, 28948022309329048855892746252171976963363056481941560715954676764349967630337int, 25124551323890478142552614054873281052907965627641224424517916831867070443935int);
    lemma_pow_mod_square(2int, 6135434586519352075613773824nat, 12270869173038704151227547648nat, 28948022309329048855892746252171976963363056481941560715954676764349967630337int, 7459240287884540699172898902110244594369076882412941116639183292766869136576int);
    lemma_pow_mod_square(2int, 12270869173038704151227547648nat, 24541738346077408302455095296nat, 28948022309329048855892746252171976963363056481941560715954676764349967630337int, 24727318726012841753643829313342034922528104047162426749866895665768082626178int);
    lemma_pow_mod_square(2int, 24541738346077408302455095296nat, 49083476692154816604910190592nat, 28948022309329048855892746252171976963363056481941560715954676764349967630337int, 16542799689791186286012258377015263263181707674610154863035591086241487602037int);
    lemma_pow_mod_square(2int, 49083476692154816604910190592nat, 98166953384309633209820381184nat, 28948022309329048855892746252171976963363056481941560715954676764349967630337int, 153430119261180114431853943231735812786890147958079752606806807268227772906int);
    lemma_pow_mod_square(2int, 98166953384309633209820381184nat, 196333906768619266419640762368nat, 28948022309329048855892746252171976963363056481941560715954676764349967630337int, 11518809596173913299904161588011610989458534226374885968175281055052991228965int);
    lemma_pow_mod_square(2int, 196333906768619266419640762368nat, 392667813537238532839281524736nat, 28948022309329048855892746252171976963363056481941560715954676764349967630337int, 8356138888873999911513550852403694858599173040372800931848158718739363892099int);
    lemma_pow_mod_square(2int, 392667813537238532839281524736nat, 785335627074477065678563049472nat, 28948022309329048855892746252171976963363056481941560715954676764349967630337int, 28025665692680829655573959898093309373928103873994767992407549983722239190586int);
    lemma_pow_mod_square(2int, 785335627074477065678563049472nat, 1570671254148954131357126098944nat, 28948022309329048855892746252171976963363056481941560715954676764349967630337int, 23370782720804703275356870253884842321421717019533370055555938785330838738888int);
    lemma_pow_mod_square(2int, 1570671254148954131357126098944nat, 3141342508297908262714252197888nat, 28948022309329048855892746252171976963363056481941560715954676764349967630337int, 24516666548782097706321084195436747436221869105774541744692129602212293299517int);
    lemma_pow_mod_square(2int, 3141342508297908262714252197888nat, 6282685016595816525428504395776nat, 28948022309329048855892746252171976963363056481941560715954676764349967630337int, 7387420817252285730104742353345616991850043771306670854527356613246695938689int);
    lemma_pow_mod_square(2int, 6282685016595816525428504395776nat, 12565370033191633050857008791552nat, 28948022309329048855892746252171976963363056481941560715954676764349967630337int, 10593421653645146897185811726504276750590981275437418395545424032442966575065int);
    lemma_pow_mod_square(2int, 12565370033191633050857008791552nat, 25130740066383266101714017583104nat, 28948022309329048855892746252171976963363056481941560715954676764349967630337int, 18220990029401063271394516021336893850766814812658871448133882893648850147662int);
    lemma_pow_mod_square(2int, 25130740066383266101714017583104nat, 50261480132766532203428035166208nat, 28948022309329048855892746252171976963363056481941560715954676764349967630337int, 10388078143527352135869696069028683799790042841788087396599976339185005830651int);
    lemma_pow_mod_square(2int, 50261480132766532203428035166208nat, 100522960265533064406856070332416nat, 28948022309329048855892746252171976963363056481941560715954676764349967630337int, 8551568957972075255019111717021084022190969015518258031245423116608011983103int);
    lemma_pow_mod_square(2int, 100522960265533064406856070332416nat, 201045920531066128813712140664832nat, 28948022309329048855892746252171976963363056481941560715954676764349967630337int, 10625199681487199621023569648713381567181777147261653024704325706274970514267int);
    lemma_pow_mod_square(2int, 201045920531066128813712140664832nat, 402091841062132257627424281329664nat, 28948022309329048855892746252171976963363056481941560715954676764349967630337int, 17835838520421260736038404498809063271340671375814256520186069039042628848717int);
    lemma_pow_mod_square(2int, 402091841062132257627424281329664nat, 804183682124264515254848562659328nat, 28948022309329048855892746252171976963363056481941560715954676764349967630337int, 7683340252473571530737674330873568302966827426433109862587346730742321145566int);
    lemma_pow_mod_square(2int, 804183682124264515254848562659328nat, 1608367364248529030509697125318656nat, 28948022309329048855892746252171976963363056481941560715954676764349967630337int, 11754782099953609553404945428886631220166014996543666068581360715260452762316int);
    lemma_pow_mod_square(2int, 1608367364248529030509697125318656nat, 3216734728497058061019394250637312nat, 28948022309329048855892746252171976963363056481941560715954676764349967630337int, 2155555488442935177378306944784855657517877026334034263845627803548931293114int);
}

/// `2` to the power `28948022309329048855892746252171976963363056481941560715954676764349967630336`, modulo the field's order.
proof fn lemma_witness_power_modulus_1()
    ensures
        pow(2int, 28948022309329048855892746252171976963363056481941560715954676764349967630336nat) % 28948022309329048855892746252171976963363056481941560715954676764349967630337int == 1int,
{
    lemma_pow_mod_base(2int, 28948022309329048855892746252171976963363056481941560715954676764349967630337int);
    lemma_pow_mod_square(2int, 1nat, 2nat, 28948022309329048855892746252171976963363056481941560715954676764349967630337int, 2int);
    lemma_pow_mod_square(2int, 2nat, 4nat, 28948022309329048855892746252171976963363056481941560715954676764349967630337int, 4int);
    lemma_pow_mod_square(2int, 4nat, 8nat, 28948022309329048855892746252171976963363056481941560715954676764349967630337int, 16int);
    lemma_pow_mod_square(2int, 8nat, 16nat, 28948022309329048855892746252171976963363056481941560715954676764349967630337int, 256int);
    lemma_pow_mod_square(2int, 16nat, 32nat, 28948022309329048855892746252171976963363056481941560715954676764349967630337int, 65536int);
    lemma_pow_mod_square(2int, 32nat, 64nat, 28948022309329048855892746252171976963363056481941560715954676764349967630337int, 4294967296int);
    lemma_pow_mod_square(2int, 64nat, 128nat, 28948022309329048855892746252171976963363056481941560715954676764349967630337int, 18446744073709551616int);
    lemma_pow_mod_square(2int, 128nat, 256nat, 28948022309329048855892746252171976963363056481941560715954676764349967630337int, 340282366920938463463374607431768211456int);
    lemma_pow_mod_square(2int, 256nat, 512nat, 28948022309329048855892746252171976963363056481941560715954676764349967630337int, 28948022309329048855892746252171976963180815219815881891593553714863226748925int);
    lemma_pow_mod_square(2int, 512nat, 1024nat, 28948022309329048855892746252171976963363056481941560715954676764349967630337int, 4263855311831330276397237192126260515652039413828781833859739249380679483407int);
    lemma_pow_mod_square(2int, 1024nat, 2048nat, 28948022309329048855892746252171976963363056481941560715954676764349967630337int, 15288365693733013258788026500704679490680223638053850025710642803924936200878int);
    lemma_pow_mod_square(2int, 2048nat, 4096nat, 28948022309329048855892746252171976963363056481941560715954676764349967630337int, 23871100198211816394160563870641483347917982606564014385520293963845699629556int);
    lemma_pow_mod_square(2int, 4096nat, 8192nat, 28948022309329048855892746252171976963363056481941560715954676764349967630337int, 21050965314443857588701267367567362644735009018487377074981547755778230339683int);
    lemma_pow_mod_square(2int, 8192nat, 16384nat, 28948022309329048855892746252171976963363056481941560715954676764349967630337int, 2010225269614790948619308644236907443545103342163048971874856145376197095698int);
    lemma_pow_mod_square(2int, 16384nat, 32768nat, 28948022309329048855892746252171976963363056481941560715954676764349967630337int, 19452484090830451651436770118129995077771819561326475449686443316195103361804int);
    lemma_pow_mod_square(2int, 32768nat, 65536nat, 28948022309329048855892746252171976963363056481941560715954676764349967630337int, 26380725333777684795478542280847025270437610946868006664281988115150871077648int);
    lemma_pow_mod_square(2int, 65536nat, 131072nat, 28948022309329048855892746252171976963363056481941560715954676764349967630337int, 8199115573194593946533895575164897407791417553486784563100383527672671638461int);
    lemma_pow_mod_square(2int, 131072nat, 262144nat, 28948022309329048855892746252171976963363056481941560715954676764349967630337int, 8237299426429154301699279085017959127961611335391727044556512318400200542841int);
    lemma_pow_mod_square(2int, 262144nat, 524288nat, 28948022309329048855892746252171976963363056481941560715954676764349967630337int, 1848652790177575712513502930176933907616117524627766940971231141701537788723int);
    lemma_pow_mod_square(2int, 524288nat, 1048576nat, 28948022309329048855892746252171976963363056481941560715954676764349967630337int, 13689704357961342181823884609069909043906787370386611225109877343143821514073int);
    lemma_pow_mod_square(2int, 1048576nat, 2097152nat, 28948022309329048855892746252171976963363056481941560715954676764349967630337int, 21829059966978925281657782153647494538662047331089672170111841364141995288118int);
    lemma_pow_mod_square(2int, 2097152nat, 4194304nat, 28948022309329048855892746252171976963363056481941560715954676764349967630337int, 23342793434114792245098502023046863184016468414846482803734707131666846391587int);
    lemma_pow_mod_square(2int, 4194304nat, 8388608nat, 28948022309329048855892746252171976963363056481941560715954676764349967630337int, 15270614757738496987279112463294938298897226151011380189161074086282548427089int);
    lemma_pow_mod_square(2int, 8388608nat, 16777216nat, 28948022309329048855892746252171976963363056481941560715954676764349967630337int, 26013942413802022321352591108561044585468109260409249792540475617564817557128int);
    lemma_pow_mod_square(2int, 16777216nat, 33554432nat, 28948022309329048855892746252171976963363056481941560715954676764349967630337int, 4303570637703276927718308796985534974918104736063281876917766444200585155643int);
    lemma_pow_mod_square(2int, 33554432nat, 67108864nat, 28948022309329048855892746252171976963363056481941560715954676764349967630337int, 22827843425217252513665923170604065628835120805621917415892709467585045003863int);
    lemma_pow_mod_square(2int, 67108864nat, 134217728nat, 28948022309329048855892746252171976963363056481941560715954676764349967630337int, 5970525638845575569611754115073090594528058057402505039700038380970059174973int);
    lemma_pow_mod_square(2int, 134217728nat, 268435456nat, 28948022309329048855892746252171976963363056481941560715954676764349967630337int, 6954194812638222975582734474525876302802148681465949034419216722654157587342int);
    lemma_pow_mod_square(2int, 268435456nat, 536870912nat, 28948022309329048855892746252171976963363056481941560715954676764349967630337int, 1419128873448916263429646790421952741451546643508958450599473111753365261838int);
    lemma_pow_mod_square(2int, 536870912nat, 1073741824nat, 28948022309329048855892746252171976963363056481941560715954676764349967630337int, 16792808534079307272303476304809933218330893116456604172775464312023659782706int);
    lemma_pow_mod_square(2int, 1073741824nat, 2147483648nat, 28948022309329048855892746252171976963363056481941560715954676764349967630337int, 463010103556353318581988902616932619836138414440899210279370833662340537193int);
    lemma_pow_mod_square(2int, 2147483648nat, 4294967296nat, 28948022309329048855892746252171976963363056481941560715954676764349967630337int, 26657628043546588273280698644961559843471775121685573967725380358524130343622int);
    lemma_pow_mod_square(2int, 4294967296nat, 8589934592nat, 28948022309329048855892746252171976963363056481941560715954676764349967630337int, 19567267087094581014667973359070166694086933010765401282786614317020451785342int);
    lemma_pow_mod_square(2int, 8589934592nat, 17179869184nat, 28948022309329048855892746252171976963363056481941560715954676764349967630337int, 2925010279064219018570111545937437785786160040477520795454242965826384822679int);
    lemma_pow_mod_square(2int, 17179869184nat, 34359738368nat, 28948022309329048855892746252171976963363056481941560715954676764349967630337int, 7346978127038087102991947056022493056548913814797231117010951986517744552511int);
    lemma_pow_mod_square(2int, 34359738368nat, 68719476736nat, 28948022309329048855892746252171976963363056481941560715954676764349967630337int, 4894877858575713047176745089795749783457949710762924077182065780471299264996int);
    lemma_pow_mod_square(2int, 68719476736nat, 137438953472nat, 28948022309329048855892746252171976963363056481941560715954676764349967630337int, 10532820591624346959506507352163523945464888817545925784882615433707855886237int);
    lemma_pow_mod_square(2int, 137438953472nat, 274877906944nat, 28948022309329048855892746252171976963363056481941560715954676764349967630337int, 26719705791153831931696999864275669413126314816135240484357922780097639231533int);
    lemma_pow_mod_square(2int, 274877906944nat, 549755813888nat, 28948022309329048855892746252171976963363056481941560715954676764349967630337int, 6211344677821226611199617409086609837663322585252300874041183930302508273340int);
    lemma_pow_mod_square(2int, 549755813888nat, 1099511627776nat, 28948022309329048855892746252171976963363056481941560715954676764349967630337int, 18134484875229106063934651465791593444319652167377596190843539645997307003398int);
    lemma_pow_mod_square(2int, 1099511627776nat, 2199023255552nat, 28948022309329048855892746252171976963363056481941560715954676764349967630337int, 2196305418924848869450177659907501008435507575763110932139673367795794669076int);
    lemma_pow_mod_square(2int, 2199023255552nat, 4398046511104nat, 28948022309329048855892746252171976963363056481941560715954676764349967630337int, 10804893218595693650590726949294990238905235723340343419144439531809579732484int);
    lemma_pow_mod_square(2int, 4398046511104nat, 8796093022208nat, 28948022309329048855892746252171976963363056481941560715954676764349967630337int, 24075326399895230065114383414010617071881909905370706091016420697724909835569int);
    lemma_pow_mod_square(2int, 8796093022208nat, 17592186044416nat, 28948022309329048855892746252171976963363056481941560715954676764349967630337int, 21648565106773694456376419323049326968574913534833179290065217698664253180105int);
    lemma_pow_mod_square(2int, 17592186044416nat, 35184372088832nat, 28948022309329048855892746252171976963363056481941560715954676764349967630337int, 12805130769574821476876387730136512635620019271674219420057359605176245718421int);
    lemma_pow_mod_square(2int, 35184372088832nat, 70368744177664nat, 28948022309329048855892746252171976963363056481941560715954676764349967630337int, 21195995357155816496274191434962213852787434862272728065752234974096041171807int);
    lemma_pow_mod_square(2int, 70368744177664nat, 140737488355328nat, 28948022309329048855892746252171976963363056481941560715954676764349967630337int, 1916115147115420925988774925250068790292962766079178320852132784809529984611int);
    lemma_pow_mod_square(2int, 140737488355328nat, 281474976710656nat, 28948022309329048855892746252171976963363056481941560715954676764349967630337int, 5193127802942912455686912168531188241563926472893447678198136014069252712255int);
    lemma_pow_mod_square(2int, 281474976710656nat, 562949953421312nat, 28948022309329048855892746252171976963363056481941560715954676764349967630337int, 21949812480713329480918704267602778458350941984095270159933324776719480521738int);
    lemma_pow_mod_square(2int, 562949953421312nat, 1125899906842624nat, 28948022309329048855892746252171976963363056481941560715954676764349967630337int, 5031656031961425819334725758689285358099808453365087884924924068560472510900int);
    lemma_pow_mod_square(2int, 1125899906842624nat, 2251799813685248nat, 28948022309329048855892746252171976963363056481941560715954676764349967630337int, 9132180114439167428390324648571597324173978247414066974501726841517457211200int);
    lemma_pow_mod_square(2int, 2251799813685248nat, 4503599627370496nat, 28948022309329048855892746252171976963363056481941560715954676764349967630337int, 10448586362284352065038076542639081863778383067994693119746783575762930063640int);
    lemma_pow_mod_square(2int, 4503599627370496nat, 9007199254740992nat, 28948022309329048855892746252171976963363056481941560715954676764349967630337int, 17517329648034992027445548253301162494630085500445451921172434927863178359102int);
    lemma_pow_mod_square(2int, 9007199254740992nat, 18014398509481984nat, 28948022309329048855892746252171976963363056481941560715954676764349967630337int, 16446901672639758847464031612690087465929022585408798301792872355043662769035int);
    lemma_pow_mod_square(2int, 18014398509481984nat, 36028797018963968nat, 28948022309329048855892746252171976963363056481941560715954676764349967630337int, 11152963939539513401417402108186670778358417253658288248189442821373197362410int);
    lemma_pow_mod_square(2int, 36028797018963968nat, 72057594037927936nat, 28948022309329048855892746252171976963363056481941560715954676764349967630337int, 9455633733508591996513691960137734043213963881532552098787304713863048129362int);
    lemma_pow_mod_square(2int, 72057594037927936nat, 144115188075855872nat, 28948022309329048855892746252171976963363056481941560715954676764349967630337int, 20643745166487167711223519500055527327374543914501801470837420678255851348042int);
    lemma_pow_mod_square(2int, 144115188075855872nat, 288230376151711744nat, 28948022309329048855892746252171976963363056481941560715954676764349967630337int, 9087640353958214168318296459710436611736607280886429627144729293684965118641int);
    lemma_pow_mod_square(2int, 288230376151711744nat, 576460752303423488nat, 28948022309329048855892746252171976963363056481941560715954676764349967630337int, 14087227803139929393561093187304351464310533152510507067835951401492643145683int);
    lemma_pow_mod_square(2int, 576460752303423488nat, 1152921504606846976nat, 28948022309329048855892746252171976963363056481941560715954676764349967630337int, 12205388772591510452173063346752884376624362168070122993585468795128902449101int);
    lemma_pow_mod_square(2int, 1152921504606846976nat, 2305843009213693952nat, 28948022309329048855892746252171976963363056481941560715954676764349967630337int, 28136486416417440242889779054288755760323026084800655985866210815847970816920int);
    lemma_pow_mod_square(2int, 2305843009213693952nat, 4611686018427387904nat, 28948022309329048855892746252171976963363056481941560715954676764349967630337int, 1531181214219539196515277405179953005474605253098875060300675295717654284465int);
    lemma_pow_mod_square(2int, 4611686018427387904nat, 9223372036854775808nat, 28948022309329048855892746252171976963363056481941560715954676764349967630337int, 20245572199913566340847941667348136294470071286587731035152072502659820236448int);
    lemma_pow_mod_square(2int, 9223372036854775808nat, 18446744073709551616nat, 28948022309329048855892746252171976963363056481941560715954676764349967630337int, 10879110213042242025407571223820847935160503623275909830538033285834714668366int);
    lemma_pow_mod_square(2int, 18446744073709551616nat, 36893488147419103232nat, 28948022309329048855892746252171976963363056481941560715954676764349967630337int, 14097959967213171707881355666022137700458891400849681570170263313812793392210int);
    lemma_pow_mod_square(2int, 36893488147419103232nat, 73786976294838206464nat, 28948022309329048855892746252171976963363056481941560715954676764349967630337int, 22633650261640127243437978911353129567526808526991647351147473696029978756497int);
    lemma_pow_mod_square(2int, 73786976294838206464nat, 147573952589676412928nat, 28948022309329048855892746252171976963363056481941560715954676764349967630337int, 531732338682073760524845839557241960613273216930410846033058803504697846340int);
    lemma_pow_mod_square(2int, 147573952589676412928nat, 295147905179352825856nat, 28948022309329048855892746252171976963363056481941560715954676764349967630337int, 24761807862949525650166526119235857812053534430734753029573995477526763429463int);
    lemma_pow_mod_square(2int, 295147905179352825856nat, 590295810358705651712nat, 28948022309329048855892746252171976963363056481941560715954676764349967630337int, 19019747269932218461991660177410246935030275160111967453156696070066822840012int);
    lemma_pow_mod_square(2int, 590295810358705651712nat, 1180591620717411303424nat, 28948022309329048855892746252171976963363056481941560715954676764349967630337int, 3386748269547072222530947237085822144786470083446322919240648380935966798559int);
    lemma_pow_mod_square(2int, 1180591620717411303424nat, 2361183241434822606848nat, 28948022309329048855892746252171976963363056481941560715954676764349967630337int, 27226675710948112027372981120779870360940099887184044443303722369755129146570int);
    lemma_pow_mod_square(2int, 2361183241434822606848nat, 4722366482869645213696nat, 28948022309329048855892746252171976963363056481941560715954676764349967630337int, 22968863141817836329071188914387890551661902909074942232147821332293384267810int);
    lemma_pow_mod_square(2int, 4722366482869645213696nat, 9444732965739290427392nat, 28948022309329048855892746252171976963363056481941560715954676764349967630337int, 1944610381860828196444862984237593752062654987966088689730999186609349942663int);
    lemma_pow_mod_square(2int, 9444732965739290427392nat, 18889465931478580854784nat, 28948022309329048855892746252171976963363056481941560715954676764349967630337int, 4746403028888523695400847395656686475742248299634701142541665676331567126973int);
    lemma_pow_mod_square(2int, 18889465931478580854784nat, 37778931862957161709568nat, 28948022309329048855892746252171976963363056481941560715954676764349967630337int, 10110829237129740437582641539804044657200651857753561125648698120639198330166int);
    lemma_pow_mod_square(2int, 37778931862957161709568nat, 75557863725914323419136nat, 28948022309329048855892746252171976963363056481941560715954676764349967630337int, 27738366392909146826134865912481098797013863217479501681253998017538936993657int);
    lemma_pow_mod_square(2int, 75557863725914323419136nat, 151115727451828646838272nat, 28948022309329048855892746252171976963363056481941560715954676764349967630337int, 2900071082892283424980668921497289840267099721656103694755592380735601969123int);
    lemma_pow_mod_square(2int, 151115727451828646838272nat, 302231454903657293676544nat, 28948022309329048855892746252171976963363056481941560715954676764349967630337int, 7527952427382520670098219539633936419146292487586833291205386284599562652776int);
    lemma_pow_mod_square(2int, 302231454903657293676544nat, 604462909807314587353088nat, 28948022309329048855892746252171976963363056481941560715954676764349967630337int, 28327918574539905230989948006348774287097472090765616080274567356423467406460int);
    lemma_pow_mod_square(2int, 604462909807314587353088nat, 1208925819614629174706176nat, 28948022309329048855892746252171976963363056481941560715954676764349967630337int, 12626322991589780631981084131846602192379458023632813164584244557618417863296int);
    lemma_pow_mod_square(2int, 1208925819614629174706176nat, 2417851639229258349412352nat, 28948022309329048855892746252171976963363056481941560715954676764349967630337int, 11969389704446514574667394957514369060702786566707412579528765100107276531945int);
    lemma_pow_mod_square(2int, 2417851639229258349412352nat, 4835703278458516698824704nat, 28948022309329048855892746252171976963363056481941560715954676764349967630337int, 21898417482383064382695808946327392218949526603492620229754786048822216777378int);
    lemma_pow_mod_square(2int, 4835703278458516698824704nat, 9671406556917033397649408nat, 28948022309329048855892746252171976963363056481941560715954676764349967630337int, 6161052674419653024588193183248864478194665482225265544548559353975790015606int);
    lemma_pow_mod_square(2int, 9671406556917033397649408nat, 19342813113834066795298816nat, 28948022309329048855892746252171976963363056481941560715954676764349967630337int, 5078777198121192765632153407494071620264944579572293320086133435379952096209int);
    lemma_pow_mod_square(2int, 19342813113834066795298816nat, 38685626227668133590597632nat, 28948022309329048855892746252171976963363056481941560715954676764349967630337int, 17918698166240253152149071357097262908452147475336392529201524306137755925929int);
    lemma_pow_mod_square(2int, 38685626227668133590597632nat, 77371252455336267181195264nat, 28948022309329048855892746252171976963363056481941560715954676764349967630337int, 7454561033414209173044139755980276232663923246148255395964319960922496833174int);
    lemma_pow_mod_square(2int, 77371252455336267181195264nat, 154742504910672534362390528nat, 28948022309329048855892746252171976963363056481941560715954676764349967630337int, 4053282750128406367299869554375084836447642784560588534134024269846782346538int);
    lemma_pow_mod_square(2int, 154742504910672534362390528nat, 309485009821345068724781056nat, 28948022309329048855892746252171976963363056481941560715954676764349967630337int, 2067254649603667453521165286390860843515565427421996548927826861912439022950int);
    lemma_pow_mod_square(2int, 309485009821345068724781056nat, 618970019642690137449562112nat, 28948022309329048855892746252171976963363056481941560715954676764349967630337int, 19330335824718185746906006448982204498221826381454781815650679239053789224853int);
    lemma_pow_mod_square(2int, 618970019642690137449562112nat, 1237940039285380274899124224nat, 28948022309329048855892746252171976963363056481941560715954676764349967630337int, 28255287626218213683079050563525161655126838462669739310965698484753937372857int);
    lemma_pow_mod_square(2int, 1237940039285380274899124224nat, 2475880078570760549798248448nat, 28948022309329048855892746252171976963363056481941560715954676764349967630337int, 25316564256662756729949044750128867318295920889667886108485070826073015015114int);
    lemma_pow_mod_square(2int, 2475880078570760549798248448nat, 4951760157141521099596496896nat, 28948022309329048855892746252171976963363056481941560715954676764349967630337int, 2310329532994572145096622766791228514365716684023288857063575246154966315163int);
    lemma_pow_mod_square(2int, 4951760157141521099596496896nat, 9903520314283042199192993792nat, 28948022309329048855892746252171976963363056481941560715954676764349967630337int, 28348220570256670595005085212837548176502766949708930857713131417062170247597int);
    lemma_pow_mod_square(2int, 9903520314283042199192993792nat, 19807040628566084398385987584nat, 28948022309329048855892746252171976963363056481941560715954676764349967630337int, 8370986987085183650177528153389279008696119715422960631449027617425076940683int);
    lemma_pow_mod_square(2int, 19807040628566084398385987584nat, 39614081257132168796771975168nat, 28948022309329048855892746252171976963363056481941560715954676764349967630337int, 22009375366967999472379297617024197161506605102890897212162917810971012859958int);
    lemma_pow_mod_square(2int, 39614081257132168796771975168nat, 79228162514264337593543950336nat, 28948022309329048855892746252171976963363056481941560715954676764349967630337int, 12433814531097116338582519919112025054354960098684938953090514390948925516182int);
    lemma_pow_mod_square(2int, 79228162514264337593543950336nat, 158456325028528675187087900672nat, 28948022309329048855892746252171976963363056481941560715954676764349967630337int, 5766083366758245588325823976295796494920558049244887368092397469186342514552int);
    lemma_pow_mod_square(2int, 158456325028528675187087900672nat, 316912650057057350374175801344nat, 28948022309329048855892746252171976963363056481941560715954676764349967630337int, 26839038434486098012821951784043819564654194655649200498833582152816124568158int);
    lemma_pow_mod_square(2int, 316912650057057350374175801344nat, 633825300114114700748351602688nat, 28948022309329048855892746252171976963363056481941560715954676764349967630337int, 4613097826730704396072063214816502700487888017984879930633963755721991474086int);
    lemma_pow_mod_square(2int, 633825300114114700748351602688nat, 1267650600228229401496703205376nat, 28948022309329048855892746252171976963363056481941560715954676764349967630337int, 17568902337510709585498850077671056408501944218217091026036624436116819763181int);
    lemma_pow_mod_square(2int, 1267650600228229401496703205376nat, 2535301200456458802993406410752nat, 28948022309329048855892746252171976963363056481941560715954676764349967630337int, 5279931694391918375270660637156082717840782480971923659498377561007030890047int);
    lemma_pow_mod_square(2int, 2535301200456458802993406410752nat, 5070602400912917605986812821504nat, 28948022309329048855892746252171976963363056481941560715954676764349967630337int, 24903240055675136627214972768133882677287672442175931518332718412401066437162int);
    lemma_pow_mod_square(2int, 5070602400912917605986812821504nat, 10141204801825835211973625643008nat, 28948022309329048855892746252171976963363056481941560715954676764349967630337int, 26987491519086347905295167150964618416469712425476813897117878882072129100733int);
    lemma_pow_mod_square(2int, 10141204801825835211973625643008nat, 20282409603651670423947251286016nat, 28948022309329048855892746252171976963363056481941560715954676764349967630337int, 28878438641840189631587209010908389282498278668033330892686720011992823161814int);
    lemma_pow_mod_square(2int, 20282409603651670423947251286016nat, 40564819207303340847894502572032nat, 28948022309329048855892746252171976963363056481941560715954676764349967630337int, 20199953593281594559241822886847296304803333755225361137762257736829423625355int);
    lemma_pow_mod_square(2int, 40564819207303340847894502572032nat, 81129638414606681695789005144064nat, 28948022309329048855892746252171976963363056481941560715954676764349967630337int, 26212805023248107226641451736850794382259269555576023412874594356831688785446int);
    lemma_pow_mod_square(2int, 81129638414606681695789005144064nat, 162259276829213363391578010288128nat, 28948022309329048855892746252171976963363056481941560715954676764349967630337int, 17564124506136335145430832235028128441640902870465016505562080705751742908371int);
    lemma_pow_mod_square(2int, 162259276829213363391578010288128nat, 324518553658426726783156020576256nat, 28948022309329048855892746252171976963363056481941560715954676764349967630337int, 26883375463885126454609216421605837565059056286808303739313077017293605979654int);
    lemma_pow_mod_square(2int, 324518553658426726783156020576256nat, 649037107316853453566312041152512nat, 28948022309329048855892746252171976963363056481941560715954676764349967630337int, 20984113188320469126382701843430633549979873783154473693872049489856332084960int);
    lemma_pow_mod_square(2int, 649037107316853453566312041152512nat, 1298074214633706907132624082305024nat, 28948022309329048855892746252171976963363056481941560715954676764349967630337int, 4305984852381448954441875161624566021908029867605804907832720176772102496785int);
    lemma_pow_mod_square(2int, 1298074214633706907132624082305024nat, 2596148429267413814265248164610048nat, 28948022309329048855892746252171976963363056481941560715954676764349967630337int, 20733208376016913229625681168706439422642301597234047085933365598723685050749int);
    lemma_pow_mod_square(2int, 2596148429267413814265248164610048nat, 5192296858534827628530496329220096nat, 28948022309329048855892746252171976963363056481941560715954676764349967630337int, 9035994663154334587492089041628944470564101606640992130944710454579140255949int);
    lemma_pow_mod_square(2int, 5192296858534827628530496329220096nat, 10384593717069655257060992658440192nat, 28948022309329048855892746252171976963363056481941560715954676764349967630337int, 24281304449807009022760102064033559700741475740649707280909508756490722454022int);
    lemma_pow_mod_square(2int, 10384593717069655257060992658440192nat, 20769187434139310514121985316880384nat, 28948022309329048855892746252171976963363056481941560715954676764349967630337int, 24852912675675530309392472916538179634541947370231977193567478354311589752281int);
    lemma_pow_mod_square(2int, 20769187434139310514121985316880384nat, 41538374868278621028243970633760768nat, 28948022309329048855892746252171976963363056481941560715954676764349967630337int, 12483661375043599346261594816012164155900903702350463994366474097240695551635int);
    lemma_pow_mod_square(2int, 41538374868278621028243970633760768nat, 83076749736557242056487941267521536nat, 28948022309329048855892746252171976963363056481941560715954676764349967630337int, 22673942174918134425757739453496016132621009910789279426409157579147806860490int);
    lemma_pow_mod_square(2int, 83076749736557242056487941267521536nat, 166153499473114484112975882535043072nat, 28948022309329048855892746252171976963363056481941560715954676764349967630337int, 22176704901257068965933663305736718222653225727827519455417024682719713754809int);
    lemma_pow_mod_square(2int, 166153499473114484112975882535043072nat, 332306998946228968225951765070086144nat, 28948022309329048855892746252171976963363056481941560715954676764349967630337int, 28431857960714170824995358820883457740780759630852079465590916056178678828587int);
    lemma_pow_mod_square(2int, 332306998946228968225951765070086144nat, 664613997892457936451903530140172288nat, 28948022309329048855892746252171976963363056481941560715954676764349967630337int, 285106970679524692513403306686949105538282264181801058867815267971402932846int);
    lemma_pow_mod_square(2int, 664613997892457936451903530140172288nat, 1329227995784915872903807060280344576nat, 28948022309329048855892746252171976963363056481941560715954676764349967630337int, 12093412599653265185648371281600903848668688131611676329001774830194220177829int);
    lemma_pow_mod_square(2int, 1329227995784915872903807060280344576nat, 2658455991569831745807614120560689152nat, 28948022309329048855892746252171976963363056481941560715954676764349967630337int, 1769355072840282948549175575788752572984832436286890274959988346206920964687int);
    lemma_pow_mod_square(2int, 2658455991569831745807614120560689152nat, 5316911983139663491615228241121378304nat, 28948022309329048855892746252171976963363056481941560715954676764349967630337int, 16557497834053202559706235259896700141735443162066214177523678772871641041495int);
    lemma_pow_mod_square(2int, 5316911983139663491615228241121378304nat, 10633823966279326983230456482242756608nat, 28948022309329048855892746252171976963363056481941560715954676764349967630337int, 22234455928224420704331602172919222061896784562372992520980515560325639772249int);
    lemma_pow_mod_square(2int, 10633823966279326983230456482242756608nat, 21267647932558653966460912964485513216nat, 28948022309329048855892746252171976963363056481941560715954676764349967630337int, 12002837417903891539204327672047374465515748562113908442070093633806195090032int);
    lemma_pow_mod_square(2int, 21267647932558653966460912964485513216nat, 42535295865117307932921825928971026432nat, 28948022309329048855892746252171976963363056481941560715954676764349967630337int, 17581204461050305815994187849049378438471872091847162161119672409610563019214int);
    lemma_pow_mod_square(2int, 42535295865117307932921825928971026432nat, 85070591730234615865843651857942052864nat, 28948022309329048855892746252171976963363056481941560715954676764349967630337int, 4767083984247771425769367057178874860153659201458036228455854564377878206656int);
    lemma_pow_mod_square(2int, 85070591730234615865843651857942052864nat, 170141183460469231731687303715884105728nat, 28948022309329048855892746252171976963363056481941560715954676764349967630337int, 23756692205443744496586903549766860569131221774841478158079715960964816913227int);
    lemma_pow_mod_square(2int, 170141183460469231731687303715884105728nat, 340282366920938463463374607431768211456nat, 28948022309329048855892746252171976963363056481941560715954676764349967630337int, 23539625945609284918014630462411331935153551483682984053020736448675515040963int);
    lemma_pow_mod_square_mul(2int, 340282366920938463463374607431768211456nat, 680564733841876926926749214863536422913nat, 28948022309329048855892746252171976963363056481941560715954676764349967630337int, 8933073159065116669433168827918763709019609626097104938223358234975606462820int);
    lemma_pow_mod_square(2int, 680564733841876926926749214863536422913nat, 1361129467683753853853498429727072845826nat, 28948022309329048855892746252171976963363056481941560715954676764349967630337int, 23500068184269735963033730123389628464731741914562683391574257837902493053216int);
    lemma_pow_mod_square(2int, 1361129467683753853853498429727072845826nat, 2722258935367507707706996859454145691652nat, 28948022309329048855892746252171976963363056481941560715954676764349967630337int, 9651664972964651656841748059523016646788700295510997311178748103076162396489int);
    lemma_pow_mod_square(2int, 2722258935367507707706996859454145691652nat, 5444517870735015415413993718908291383304nat, 28948022309329048855892746252171976963363056481941560715954676764349967630337int, 13156922913804642289040037770568715902743192548006619946691940954104206460893int);
    lemma_pow_mod_square_mul(2int, 5444517870735015415413993718908291383304nat, 10889035741470030830827987437816582766609nat, 28948022309329048855892746252171976963363056481941560715954676764349967630337int, 14883170425227888929724689342549178210250442012454433646946015042717416490060int);
    lemma_pow_mod_square(2int, 10889035741470030830827987437816582766609nat, 21778071482940061661655974875633165533218nat, 28948022309329048855892746252171976963363056481941560715954676764349967630337int, 247439775674639816197174859536315903047014273621326118359645971331640124048int);
    lemma_pow_mod_square(2int, 21778071482940061661655974875633165533218nat, 43556142965880123323311949751266331066436nat, 28948022309329048855892746252171976963363056481941560715954676764349967630337int, 28347290288991173451555609097010898064337109629903462534428931349663852745172int);
    lemma_pow_mod_square_mul(2int, 43556142965880123323311949751266331066436nat, 87112285931760246646623899502532662132873nat, 28948022309329048855892746252171976963363056481941560715954676764349967630337int, 19617278507852486426986523378509400503823636646154314374011627907583194583927int);
    lemma_pow_mod_square(2int, 87112285931760246646623899502532662132873nat, 174224571863520493293247799005065324265746nat, 28948022309329048855892746252171976963363056481941560715954676764349967630337int, 12598176972617949139910406960133345388887546732774046201121486332463205365184int);
    lemma_pow_mod_square(2int, 174224571863520493293247799005065324265746nat, 348449143727040986586495598010130648531492nat, 28948022309329048855892746252171976963363056481941560715954676764349967630337int, 22122230768118185194222157479841173165356592643677668532652617951516186656900int);
    lemma_pow_mod_square(2int, 348449143727040986586495598010130648531492nat, 696898287454081973172991196020261297062984nat, 28948022309329048855892746252171976963363056481941560715954676764349967630337int, 26896293221989127165230990864601312548558945268704160445876662245012171921948int);
    lemma_pow_mod_square_mul(2int, 696898287454081973172991196020261297062984nat, 1393796574908163946345982392040522594125969nat, 28948022309329048855892746252171976963363056481941560715954676764349967630337int, 12384693785087856250601951805283357908047960870248859749382631653553820713040int);
    lemma_pow_mod_square_mul(2int, 1393796574908163946345982392040522594125969nat, 2787593149816327892691964784081045188251939nat, 28948022309329048855892746252171976963363056481941560715954676764349967630337int, 10358228670655476653724876208886230535333911715823872732083909340616948032549int);
    lemma_pow_mod_square(2int, 2787593149816327892691964784081045188251939nat, 5575186299632655785383929568162090376503878nat, 28948022309329048855892746252171976963363056481941560715954676764349967630337int, 8606386338540092727865719573087117611780406709413727951797009713366817018083int);
    lemma_pow_mod_square_mul(2int, 5575186299632655785383929568162090376503878nat, 11150372599265311570767859136324180753007757nat, 28948022309329048855892746252171976963363056481941560715954676764349967630337int, 4079411356047286647252212487885555240850442471279752825760171095805164723762int);
    lemma_pow_mod_square(2int, 11150372599265311570767859136324180753007757nat, 22300745198530623141535718272648361506015514nat, 28948022309329048855892746252171976963363056481941560715954676764349967630337int, 28751493746469240492367268684241766960756298311550887510396694516685530054520int);
    lemma_pow_mod_square(2int, 22300745198530623141535718272648361506015514nat, 44601490397061246283071436545296723012031028nat, 28948022309329048855892746252171976963363056481941560715954676764349967630337int, 27517594833386913463640160557443908424993610933392373253371157998952314842868int);
    lemma_pow_mod_square_mul(2int, 44601490397061246283071436545296723012031028nat, 89202980794122492566142873090593446024062057nat, 28948022309329048855892746252171976963363056481941560715954676764349967630337int, 12903802747926969329083045183765173594732929616443937855056690393730733125172int);
    lemma_pow_mod_square_mul(2int, 89202980794122492566142873090593446024062057nat, 178405961588244985132285746181186892048124115nat, 28948022309329048855892746252171976963363056481941560715954676764349967630337int, 25286799602142475870842703632872739268560239494816533948979163443927343392808int);
    lemma_pow_mod_square(2int, 178405961588244985132285746181186892048124115nat, 356811923176489970264571492362373784096248230nat, 28948022309329048855892746252171976963363056481941560715954676764349967630337int, 3742113331590019398956663647561647888833326428763020662101558337544284740901int);
    lemma_pow_mod_square(2int, 356811923176489970264571492362373784096248230nat, 713623846352979940529142984724747568192496460nat, 28948022309329048855892746252171976963363056481941560715954676764349967630337int, 23147033212541963581694851044791691461426304845556941527977528927515761361379int);
    lemma_pow_mod_square(2int, 713623846352979940529142984724747568192496460nat, 1427247692705959881058285969449495136384992920nat, 28948022309329048855892746252171976963363056481941560715954676764349967630337int, 1955436019300851799940473157757494067348839427433070292069433909932399299073int);
    lemma_pow_mod_square_mul(2int, 1427247692705959881058285969449495136384992920nat, 2854495385411919762116571938898990272769985841nat, 28948022309329048855892746252171976963363056481941560715954676764349967630337int, 3927619770504715568710757870504041573184460559362097095041213298826649214093int);
    lemma_pow_mod_square_mul(2int, 2854495385411919762116571938898990272769985841nat, 5708990770823839524233143877797980545539971683nat, 28948022309329048855892746252171976963363056481941560715954676764349967630337int, 5638410569674654863251802013167381853965491649038616130149099151330445072823int);
    lemma_pow_mod_square_mul(2int, 5708990770823839524233143877797980545539971683nat, 11417981541647679048466287755595961091079943367nat, 28948022309329048855892746252171976963363056481941560715954676764349967630337int, 3665604889330244538043830952929716682981142687364306979611838488533160980525int);
    lemma_pow_mod_square_mul(2int, 11417981541647679048466287755595961091079943367nat, 22835963083295358096932575511191922182159886735nat, 28948022309329048855892746252171976963363056481941560715954676764349967630337int, 15311065878507122083709552625679339851803915829526614357740831906200798333482int);
    lemma_pow_mod_square_mul(2int, 22835963083295358096932575511191922182159886735nat, 45671926166590716193865151022383844364319773471nat, 28948022309329048855892746252171976963363056481941560715954676764349967630337int, 2938418309912073979170723678033241397141251530641469836807709514427513112453int);
    lemma_pow_mod_square_mul(2int, 45671926166590716193865151022383844364319773471nat, 91343852333181432387730302044767688728639546943nat, 28948022309329048855892746252171976963363056481941560715954676764349967630337int, 6710257466697483389191217625890954034159101626564768817628915738370019405409int);
    lemma_pow_mod_square(2int, 91343852333181432387730302044767688728639546943nat, 182687704666362864775460604089535377457279093886nat, 28948022309329048855892746252171976963363056481941560715954676764349967630337int, 9658099768665012134591333716278726546587839872483283908487590701493207319219int);
    lemma_pow_mod_square(2int, 182687704666362864775460604089535377457279093886nat, 365375409332725729550921208179070754914558187772nat, 28948022309329048855892746252171976963363056481941560715954676764349967630337int, 19688816577019240204351826273649983826999480988931746564671158284471638508480int);
    lemma_pow_mod_square(2int, 365375409332725729550921208179070754914558187772nat, 730750818665451459101842416358141509829116375544nat, 28948022309329048855892746252171976963363056481941560715954676764349967630337int, 19945089103910423322578590580809790228215418008087572230864300806516276518025int);
    lemma_pow_mod_square(2int, 730750818665451459101842416358141509829116375544nat, 1461501637330902918203684832716283019658232751088nat, 28948022309329048855892746252171976963363056481941560715954676764349967630337int, 1101910847445462080858589776220325385758461691179577166320308143980203153407int);
    lemma_pow_mod_square(2int, 1461501637330902918203684832716283019658232751088nat, 2923003274661805836407369665432566039316465502176nat, 28948022309329048855892746252171976963363056481941560715954676764349967630337int, 17809738626373472547791212522355501015370316720975340115506990760074977620088int);
    lemma_pow_mod_square(2int, 2923003274661805836407369665432566039316465502176nat, 5846006549323611672814739330865132078632931004352nat, 28948022309329048855892746252171976963363056481941560715954676764349967630337int, 18626603904187359188293634857095199646577560862060777526984495705349048890533int);
    lemma_pow_mod_square_mul(2int, 5846006549323611672814739330865132078632931004352nat, 11692013098647223345629478661730264157265862008705nat, 28948022309329048855892746252171976963363056481941560715954676764349967630337int, 14259754993813498974797484305698093438181045884560344399929526638690366338393int);
    lemma_pow_mod_square(2int, 11692013098647223345629478661730264157265862008705nat, 23384026197294446691258957323460528314531724017410nat, 28948022309329048855892746252171976963363056481941560715954676764349967630337int, 14723961635706209482633057124331739665768649713892354165590045061720247025461int);
    lemma_pow_mod_square(2int, 23384026197294446691258957323460528314531724017410nat, 46768052394588893382517914646921056629063448034820nat, 28948022309329048855892746252171976963363056481941560715954676764349967630337int, 13642588245537066739014180622438738807595004041569008696453009883402755879976int);
    lemma_pow_mod_square_mul(2int, 46768052394588893382517914646921056629063448034820nat, 93536104789177786765035829293842113258126896069641nat, 28948022309329048855892746252171976963363056481941560715954676764349967630337int, 19848604916385903122556407445121421024533348906738712026487769104449393995314int);
    lemma_pow_mod_square(2int, 93536104789177786765035829293842113258126896069641nat, 187072209578355573530071658587684226516253792139282nat, 28948022309329048855892746252171976963363056481941560715954676764349967630337int, 13210347309968309936573545925416372632496678767549363955300318091551839744701int);
    lemma_pow_mod_square_mul(2int, 187072209578355573530071658587684226516253792139282nat, 374144419156711147060143317175368453032507584278565nat, 28948022309329048855892746252171976963363056481941560715954676764349967630337int, 22583606884966231067994533165823603150488474005655739951790829096496735336869int);
    lemma_pow_mod_square(2int, 374144419156711147060143317175368453032507584278565nat, 748288838313422294120286634350736906065015168557130nat, 28948022309329048855892746252171976963363056481941560715954676764349967630337int, 13554090724609769721990124017273764401679498329237530099430639090283841535384int);
    lemma_pow_mod_square(2int, 748288838313422294120286634350736906065015168557130nat, 1496577676626844588240573268701473812130030337114260nat, 28948022309329048855892746252171976963363056481941560715954676764349967630337int, 22364105568211236953848450562172314009711441195097205073579727842559187802832int);
    lemma_pow_mod_square_mul(2int, 1496577676626844588240573268701473812130030337114260nat, 2993155353253689176481146537402947624260060674228521nat, 28948022309329048855892746252171976963363056481941560715954676764349967630337int, 11341313459963151467990498716323564363503776237977713321116240308125590326878int);
    lemma_pow_mod_square_mul(2int, 2993155353253689176481146537402947624260060674228521nat, 5986310706507378352962293074805895248520121348457043nat, 28948022309329048855892746252171976963363056481941560715954676764349967630337int, 24210378204493504555900588112099057851299001592451931777527571737241977372946int);
    lemma_pow_mod_square(2int, 5986310706507378352962293074805895248520121348457043nat, 11972621413014756705924586149611790497040242696914086nat, 28948022309329048855892746252171976963363056481941560715954676764349967630337int, 1051417054014207836901360062265620168078696664648712548626768993586544853810int);
    lemma_pow_mod_square(2int, 11972621413014756705924586149611790497040242696914086nat, 23945242826029513411849172299223580994080485393828172nat, 28948022309329048855892746252171976963363056481941560715954676764349967630337int, 21308864190121997971114793353616410720359332997428928787299285753666253432857int);
    lemma_pow_mod_square_mul(2int, 23945242826029513411849172299223580994080485393828172nat, 47890485652059026823698344598447161988160970787656345nat, 28948022309329048855892746252171976963363056481941560715954676764349967630337int, 132325758457064864971399302738643038759547368767999431304325377553581945285int);
    lemma_pow_mod_square_mul(2int, 47890485652059026823698344598447161988160970787656345nat, 95780971304118053647396689196894323976321941575312691nat, 28948022309329048855892746252171976963363056481941560715954676764349967630337int, 9376335124574702657162316571977623864578635156652686319688417753991770092600int);
    lemma_pow_mod_square_mul(2int, 95780971304118053647396689196894323976321941575312691nat, 191561942608236107294793378393788647952643883150625383nat, 28948022309329048855892746252171976963363056481941560715954676764349967630337int, 22225074041686122130979210254479532191145288059964689568804800498469451411375int);
    lemma_pow_mod_square_mul(2int, 191561942608236107294793378393788647952643883150625383nat, 383123885216472214589586756787577295905287766301250767nat, 28948022309329048855892746252171976963363056481941560715954676764349967630337int, 8391700263156681205545627353565195611007987074091867685603472243784771484822int);
    lemma_pow_mod_square_mul(2int, 383123885216472214589586756787577295905287766301250767nat, 766247770432944429179173513575154591810575532602501535nat, 28948022309329048855892746252171976963363056481941560715954676764349967630337int, 28735568326392902752944466895524765941608873904276004235453017202372387796330int);
    lemma_pow_mod_square(2int, 766247770432944429179173513575154591810575532602501535nat, 1532495540865888858358347027150309183621151065205003070nat, 28948022309329048855892746252171976963363056481941560715954676764349967630337int, 25497128694828687509447492315745110950414541295572657233906221643857157140807int);
    lemma_pow_mod_square(2int, 1532495540865888858358347027150309183621151065205003070nat, 3064991081731777716716694054300618367242302130410006140nat, 28948022309329048855892746252171976963363056481941560715954676764349967630337int, 4688672275920469541829705146297491880063392874862769159958674437142461154811int);
    lemma_pow_mod_square_mul(2int, 3064991081731777716716694054300618367242302130410006140nat, 6129982163463555433433388108601236734484604260820012281nat, 28948022309329048855892746252171976963363056481941560715954676764349967630337int, 4117280979538239611938515978025100347141417550184500083420483039719551483781int);
    lemma_pow_mod_square(2int, 6129982163463555433433388108601236734484604260820012281nat, 12259964326927110866866776217202473468969208521640024562nat, 28948022309329048855892746252171976963363056481941560715954676764349967630337int, 14150188233905240516888159971193440202361103901687757047850051352617350910954int);
    lemma_pow_mod_square(2int, 12259964326927110866866776217202473468969208521640024562nat, 24519928653854221733733552434404946937938417043280049124nat, 28948022309329048855892746252171976963363056481941560715954676764349967630337int, 9697863442290212473623444831745881347979401931954928193826293791221882623453int);
    lemma_pow_mod_square(2int, 24519928653854221733733552434404946937938417043280049124nat, 49039857307708443467467104868809893875876834086560098248nat, 28948022309329048855892746252171976963363056481941560715954676764349967630337int, 5286038015515810473442010651864580293156848056742072301821161146086676400129int);
    lemma_pow_mod_square_mul(2int, 49039857307708443467467104868809893875876834086560098248nat, 98079714615416886934934209737619787751753668173120196497nat, 28948022309329048855892746252171976963363056481941560715954676764349967630337int, 27664533697410737910205349193123066979276251378030294224349657886443756390574int);
    lemma_pow_mod_square_mul(2int, 98079714615416886934934209737619787751753668173120196497nat, 196159429230833773869868419475239575503507336346240392995nat, 28948022309329048855892746252171976963363056481941560715954676764349967630337int, 24684619949960494336432340118957141332699356101017955455126441145788816332760int);
    lemma_pow_mod_square(2int, 196159429230833773869868419475239575503507336346240392995nat, 392318858461667547739736838950479151007014672692480785990nat, 28948022309329048855892746252171976963363056481941560715954676764349967630337int, 19763931800429594263110369964070835568928906549982821733963434203241121103118int);
    lemma_pow_mod_square_mul(2int, 392318858461667547739736838950479151007014672692480785990nat, 784637716923335095479473677900958302014029345384961571981nat, 28948022309329048855892746252171976963363056481941560715954676764349967630337int, 3379031301789932396149715852045050947936581673271978410100765237142064449355int);
    lemma_pow_mod_square_mul(2int, 784637716923335095479473677900958302014029345384961571981nat, 1569275433846670190958947355801916604028058690769923143963nat, 28948022309329048855892746252171976963363056481941560715954676764349967630337int, 16091655015543130677540617644646595106638844451584478471060034229693111142403int);
    lemma_pow_mod_square_mul(2int, 1569275433846670190958947355801916604028058690769923143963nat, 3138550867693340381917894711603833208056117381539846287927nat, 28948022309329048855892746252171976963363056481941560715954676764349967630337int, 16500286390801118888227992693764662631775935752405939411226573772232380769266int);
    lemma_pow_mod_square(2int, 3138550867693340381917894711603833208056117381539846287927nat, 6277101735386680763835789423207666416112234763079692575854nat, 28948022309329048855892746252171976963363056481941560715954676764349967630337int, 2181126974593859730124580258902638455191494926191744959934418849972782855635int);
    lemma_pow_mod_square(2int, 6277101735386680763835789423207666416112234763079692575854nat, 12554203470773361527671578846415332832224469526159385151708nat, 28948022309329048855892746252171976963363056481941560715954676764349967630337int, 8777724826390004515240727217999690596951869607616617766788180820812693299640int);
    lemma_pow_mod_square_mul(2int, 12554203470773361527671578846415332832224469526159385151708nat, 25108406941546723055343157692830665664448939052318770303417nat, 28948022309329048855892746252171976963363056481941560715954676764349967630337int, 19182322633618700348513672003027263460328260613322257877939851956833822376424int);
    lemma_pow_mod_square_mul(2int, 25108406941546723055343157692830665664448939052318770303417nat, 50216813883093446110686315385661331328897878104637540606835nat, 28948022309329048855892746252171976963363056481941560715954676764349967630337int, 1035292978020176376758874123791140970583001268350791902257362916446302442464int);
    lemma_pow_mod_square(2int, 50216813883093446110686315385661331328897878104637540606835nat, 100433627766186892221372630771322662657795756209275081213670nat, 28948022309329048855892746252171976963363056481941560715954676764349967630337int, 238203452143473764748567392100877088631180624985540583447528582978296843716int);
    lemma_pow_mod_square(2int, 100433627766186892221372630771322662657795756209275081213670nat, 200867255532373784442745261542645325315591512418550162427340nat, 28948022309329048855892746252171976963363056481941560715954676764349967630337int, 21925218266870418061799761641246108530129562833787776120478225794842591554370int);
    lemma_pow_mod_square_mul(2int, 200867255532373784442745261542645325315591512418550162427340nat, 401734511064747568885490523085290650631183024837100324854681nat, 28948022309329048855892746252171976963363056481941560715954676764349967630337int, 2405885842802948684445681184985541327040076614184710737665935999659228933668int);
    lemma_pow_mod_square(2int, 401734511064747568885490523085290650631183024837100324854681nat, 803469022129495137770981046170581301262366049674200649709362nat, 28948022309329048855892746252171976963363056481941560715954676764349967630337int, 21731846949303765856449965329158264584285934859250476292192867041011448127001int);
    lemma_pow_mod_square(2int, 803469022129495137770981046170581301262366049674200649709362nat, 1606938044258990275541962092341162602524732099348401299418724nat, 28948022309329048855892746252171976963363056481941560715954676764349967630337int, 21252195272192215397384158655661443810538068451567269768261830419626041715318int);
    lemma_pow_mod_square_mul(2int, 1606938044258990275541962092341162602524732099348401299418724nat, 3213876088517980551083924184682325205049464198696802598837449nat, 28948022309329048855892746252171976963363056481941560715954676764349967630337int, 18998917194126222350591578887680350009932154611222744012636384704371349997899int);
    lemma_pow_mod_square(2int, 3213876088517980551083924184682325205049464198696802598837449nat, 6427752177035961102167848369364650410098928397393605197674898nat, 28948022309329048855892746252171976963363056481941560715954676764349967630337int, 22649561976279664553030921275581318383400940176714445790381963126293106057166int);
    lemma_pow_mod_square_mul(2int, 6427752177035961102167848369364650410098928397393605197674898nat, 12855504354071922204335696738729300820197856794787210395349797nat, 28948022309329048855892746252171976963363056481941560715954676764349967630337int, 27110009731293567577595947114057610245392966994558653159878095637810497885431int);
    lemma_pow_mod_square_mul(2int, 12855504354071922204335696738729300820197856794787210395349797nat, 25711008708143844408671393477458601640395713589574420790699595nat, 28948022309329048855892746252171976963363056481941560715954676764349967630337int, 7660962688716606847427011418292012027989287770950337702593609156592176491268int);
    lemma_pow_mod_square(2int, 25711008708143844408671393477458601640395713589574420790699595nat, 51422017416287688817342786954917203280791427179148841581399190nat, 28948022309329048855892746252171976963363056481941560715954676764349967630337int, 4406665909120047606296928126505807968807786607613607663263422802582372483941int);
    lemma_pow_mod_square_mul(2int, 51422017416287688817342786954917203280791427179148841581399190nat, 102844034832575377634685573909834406561582854358297683162798381nat, 28948022309329048855892746252171976963363056481941560715954676764349967630337int, 5799300544896606035765979538218364301857493367984750854066296838046470622225int);
    lemma_pow_mod_square(2int, 102844034832575377634685573909834406561582854358297683162798381nat, 205688069665150755269371147819668813123165708716595366325596762nat, 28948022309329048855892746252171976963363056481941560715954676764349967630337int, 20964197784029387987999795277163224065872121947027324597461387857352034256132int);
    lemma_pow_mod_square(2int, 205688069665150755269371147819668813123165708716595366325596762nat, 411376139330301510538742295639337626246331417433190732651193524nat, 28948022309329048855892746252171976963363056481941560715954676764349967630337int, 26468085191382642009717413233702267071132749561610840480397089621310894978263int);
    lemma_pow_mod_square_mul(2int, 411376139330301510538742295639337626246331417433190732651193524nat, 822752278660603021077484591278675252492662834866381465302387049nat, 28948022309329048855892746252171976963363056481941560715954676764349967630337int, 8063225292997144857513220936406627766422875435731453246427865991096424207356int);
    lemma_pow_mod_square_mul(2int, 822752278660603021077484591278675252492662834866381465302387049nat, 1645504557321206042154969182557350504985325669732762930604774099nat, 28948022309329048855892746252171976963363056481941560715954676764349967630337int, 16409999906607366275426791652520175744607640552728177751960849765922651589134int);
    lemma_pow_mod_square(2int, 1645504557321206042154969182557350504985325669732762930604774099nat, 3291009114642412084309938365114701009970651339465525861209548198nat, 28948022309329048855892746252171976963363056481941560715954676764349967630337int, 6764476196695273007039936056680789822517534144809199080768350182964998765260int);
    lemma_pow_mod_square(2int, 3291009114642412084309938365114701009970651339465525861209548198nat, 6582018229284824168619876730229402019941302678931051722419096396nat, 28948022309329048855892746252171976963363056481941560715954676764349967630337int, 24802961241352709352312072891365960514717898115531195375412127591033100247543int);
    lemma_pow_mod_square(2int, 6582018229284824168619876730229402019941302678931051722419096396nat, 13164036458569648337239753460458804039882605357862103444838192792nat, 28948022309329048855892746252171976963363056481941560715954676764349967630337int, 7701940680175541018080581066206158110494534634477122702835777175068479311018int);
    lemma_pow_mod_square(2int, 13164036458569648337239753460458804039882605357862103444838192792nat, 26328072917139296674479506920917608079765210715724206889676385584nat, 28948022309329048855892746252171976963363056481941560715954676764349967630337int, 1630774546108788182561132460180461667027302651881006255841129991347773311850int);
    lemma_pow_mod_square_mul(2int, 26328072917139296674479506920917608079765210715724206889676385584nat, 52656145834278593348959013841835216159530421431448413779352771169nat, 28948022309329048855892746252171976963363056481941560715954676764349967630337int, 9461807465325913102796945943270041905997898030567776361032331373805194994773int);
    lemma_pow_mod_square_mul(2int, 52656145834278593348959013841835216159530421431448413779352771169nat, 105312291668557186697918027683670432319060842862896827558705542339nat, 28948022309329048855892746252171976963363056481941560715954676764349967630337int, 16813032071199246810053983346310441839790624062437636464395523818696282843051int);
    lemma_pow_mod_square_mul(2int, 105312291668557186697918027683670432319060842862896827558705542339nat, 210624583337114373395836055367340864638121685725793655117411084679nat, 28948022309329048855892746252171976963363056481941560715954676764349967630337int, 449340372141616742520281479163978730067623481671210415997307895238144318339int);
    lemma_pow_mod_square(2int, 210624583337114373395836055367340864638121685725793655117411084679nat, 421249166674228746791672110734681729276243371451587310234822169358nat, 28948022309329048855892746252171976963363056481941560715954676764349967630337int, 6294080987862674945317051937775925275437604269815756583216249111662431573773int);
    lemma_pow_mod_square_mul(2int, 421249166674228746791672110734681729276243371451587310234822169358nat, 842498333348457493583344221469363458552486742903174620469644338717nat, 28948022309329048855892746252171976963363056481941560715954676764349967630337int, 357871159496992212842458284808873258792892501277252474934911131470836012942int);
    lemma_pow_mod_square_mul(2int, 842498333348457493583344221469363458552486742903174620469644338717nat, 1684996666696914987166688442938726917104973485806349240939288677435nat, 28948022309329048855892746252171976963363056481941560715954676764349967630337int, 4638028714732773301774927275227090042601495010563324737233657605378158153703int);
    lemma_pow_mod_square(2int, 1684996666696914987166688442938726917104973485806349240939288677435nat, 3369993333393829974333376885877453834209946971612698481878577354870nat, 28948022309329048855892746252171976963363056481941560715954676764349967630337int, 12570171561022325555490757038958778747276916909518826521010486124340336700621int);
    lemma_pow_mod_square_mul(2int, 3369993333393829974333376885877453834209946971612698481878577354870nat, 6739986666787659948666753771754907668419893943225396963757154709741nat, 28948022309329048855892746252171976963363056481941560715954676764349967630337int, 11392952284863382012132164168289825716799546115491632115342500095250460697284int);
    lemma_pow_mod_square(2int, 6739986666787659948666753771754907668419893943225396963757154709741nat, 13479973333575319897333507543509815336839787886450793927514309419482nat, 28948022309329048855892746252171976963363056481941560715954676764349967630337int, 6537358581344348956376874266876122077468779344637930409278197398660989884307int);
    lemma_pow_mod_square(2int, 13479973333575319897333507543509815336839787886450793927514309419482nat, 26959946667150639794667015087019630673679575772901587855028618838964nat, 28948022309329048855892746252171976963363056481941560715954676764349967630337int, 25597028179496496482630730403988399416696079236899778253090148823844575945823int);
    lemma_pow_mod_square(2int, 26959946667150639794667015087019630673679575772901587855028618838964nat, 53919893334301279589334030174039261347359151545803175710057237677928nat, 28948022309329048855892746252171976963363056481941560715954676764349967630337int, 7613271708084824712878485347294458340863857491954409377699194029715411913939int);
    lemma_pow_mod_square(2int, 53919893334301279589334030174039261347359151545803175710057237677928nat, 107839786668602559178668060348078522694718303091606351420114475355856nat, 28948022309329048855892746252171976963363056481941560715954676764349967630337int, 14487876523366586494068218452491641438549892299386096378849432509060909274896int);
    lemma_pow_mod_square(2int, 107839786668602559178668060348078522694718303091606351420114475355856nat, 215679573337205118357336120696157045389436606183212702840228950711712nat, 28948022309329048855892746252171976963363056481941560715954676764349967630337int, 2375481380025154606181158233748398308309841187392640755039549163577249934862int);
    lemma_pow_mod_square(2int, 215679573337205118357336120696157045389436606183212702840228950711712nat, 431359146674410236714672241392314090778873212366425405680457901423424nat, 28948022309329048855892746252171976963363056481941560715954676764349967630337int, 28163300653067432975372059118504372408341642258189656246395212100800553810221int);
    lemma_pow_mod_square(2int, 431359146674410236714672241392314090778873212366425405680457901423424nat, 862718293348820473429344482784628181557746424732850811360915802846848nat, 28948022309329048855892746252171976963363056481941560715954676764349967630337int, 13412052395838894908904378648654220383739732138028682789034672053964441033918int);
    lemma_pow_mod_square(2int, 862718293348820473429344482784628181557746424732850811360915802846848nat, 1725436586697640946858688965569256363115492849465701622721831605693696nat, 28948022309329048855892746252171976963363056481941560715954676764349967630337int, 8074557717102882767537814311231092312260140625420014747220040084235016124312int);
    lemma_pow_mod_square(2int, 1725436586697640946858688965569256363115492849465701622721831605693696nat, 3450873173395281893717377931138512726230985698931403245443663211387392nat, 28948022309329048855892746252171976963363056481941560715954676764349967630337int, 25401296929685069647429065720687667866663512664881662701505473083812685078904int);
    lemma_pow_mod_square(2int, 3450873173395281893717377931138512726230985698931403245443663211387392nat, 6901746346790563787434755862277025452461971397862806490887326422774784nat, 28948022309329048855892746252171976963363056481941560715954676764349967630337int, 28313343887590594563868763897515867396834365892838646108053572744841802734281int);
    lemma_pow_mod_square(2int, 6901746346790563787434755862277025452461971397862806490887326422774784nat, 13803492693581127574869511724554050904923942795725612981774652845549568nat, 28948022309329048855892746252171976963363056481941560715954676764349967630337int, 22831193246322863193294108013921453919648463002545365593135626083975511681283int);
    lemma_pow_mod_square(2int, 13803492693581127574869511724554050904923942795725612981774652845549568nat, 27606985387162255149739023449108101809847885591451225963549305691099136nat, 28948022309329048855892746252171976963363056481941560715954676764349967630337int, 9283559081930280107523011649620424518243932284172776712100995592536103648160int);
    lemma_pow_mod_square(2int, 27606985387162255149739023449108101809847885591451225963549305691099136nat, 55213970774324510299478046898216203619695771182902451927098611382198272nat, 28948022309329048855892746252171976963363056481941560715954676764349967630337int, 6719647945533522680329333214090832272667833577806403890766776386829214134698int);
    lemma_pow_mod_square(2int, 55213970774324510299478046898216203619695771182902451927098611382198272nat, 110427941548649020598956093796432407239391542365804903854197222764396544nat, 28948022309329048855892746252171976963363056481941560715954676764349967630337int, 712110510043518887636954624950964666158034770653861946557557088974095793694int);
    lemma_pow_mod_square(2int, 110427941548649020598956093796432407239391542365804903854197222764396544nat, 220855883097298041197912187592864814478783084731609807708394445528793088nat, 28948022309329048855892746252171976963363056481941560715954676764349967630337int, 8798185011149840175241858909165516193959567130979607900427698069985512856044int);
    lemma_pow_mod_square(2int, 220855883097298041197912187592864814478783084731609807708394445528793088nat, 441711766194596082395824375185729628957566169463219615416788891057586176nat, 28948022309329048855892746252171976963363056481941560715954676764349967630337int, 28052578141416617021927089488146267927841827012899332507580572245321144932789int);
    lemma_pow_mod_square(2int, 441711766194596082395824375185729628957566169463219615416788891057586176nat, 883423532389192164791648750371459257915132338926439230833577782115172352nat, 28948022309329048855892746252171976963363056481941560715954676764349967630337int, 26668778234485298586251276840844218631896994029990941381128229093561902404235int);
    lemma_pow_mod_square(2int, 883423532389192164791648750371459257915132338926439230833577782115172352nat, 1766847064778384329583297500742918515830264677852878461667155564230344704nat, 28948022309329048855892746252171976963363056481941560715954676764349967630337int, 24411536141121239773878956141353172757464565970005806094943769317230493838790int);
    lemma_pow_mod_square(2int, 1766847064778384329583297500742918515830264677852878461667155564230344704nat, 3533694129556768659166595001485837031660529355705756923334311128460689408nat, 28948022309329048855892746252171976963363056481941560715954676764349967630337int, 658846748358955443165514467239796801834029846430262071874303600835900252579int);
    lemma_pow_mod_square(2int, 3533694129556768659166595001485837031660529355705756923334311128460689408nat, 7067388259113537318333190002971674063321058711411513846668622256921378816nat, 28948022309329048855892746252171976963363056481941560715954676764349967630337int, 1807733261387534619295573174532972760721001174905048903017237248390491262222int);
    lemma_pow_mod_square(2int, 7067388259113537318333190002971674063321058711411513846668622256921378816nat, 14134776518227074636666380005943348126642117422823027693337244513842757632nat, 28948022309329048855892746252171976963363056481941560715954676764349967630337int, 20292564595053496079471126418689462155914776819772322673641734448182284977457int);
    lemma_pow_mod_square(2int, 14134776518227074636666380005943348126642117422823027693337244513842757632nat, 28269553036454149273332760011886696253284234845646055386674489027685515264nat, 28948022309329048855892746252171976963363056481941560715954676764349967630337int, 2308163278258135551052109336843705872304372476094068039847186652977158794265int);
    lemma_pow_mod_square(2int, 28269553036454149273332760011886696253284234845646055386674489027685515264nat, 56539106072908298546665520023773392506568469691292110773348978055371030528nat, 28948022309329048855892746252171976963363056481941560715954676764349967630337int, 10313915154945057286213247934395015813797971151153246690888463621728394327043int);
    lemma_pow_mod_square(2int, 56539106072908298546665520023773392506568469691292110773348978055371030528nat, 113078212145816597093331040047546785013136939382584221546697956110742061056nat, 28948022309329048855892746252171976963363056481941560715954676764349967630337int, 23265357276262514391084506330276204309227908170426771991109434970182478636954int);
    lemma_pow_mod_square(2int, 113078212145816597093331040047546785013136939382584221546697956110742061056nat, 226156424291633194186662080095093570026273878765168443093395912221484122112nat, 28948022309329048855892746252171976963363056481941560715954676764349967630337int, 17736229442869048283107630075260480897521703292353766538654310115569095855164int);
    lemma_pow_mod_square(2int, 226156424291633194186662080095093570026273878765168443093395912221484122112nat, 452312848583266388373324160190187140052547757530336886186791824442968244224nat, 28948022309329048855892746252171976963363056481941560715954676764349967630337int, 7087230862238469092715416923815015960278355200407053025868010340510389549327int);
    lemma_pow_mod_square(2int, 452312848583266388373324160190187140052547757530336886186791824442968244224nat, 904625697166532776746648320380374280105095515060673772373583648885936488448nat, 28948022309329048855892746252171976963363056481941560715954676764349967630337int, 28287778167574879500404441129033217365955279624760505543459343665369587937516int);
    lemma_pow_mod_square(2int, 904625697166532776746648320380374280105095515060673772373583648885936488448nat, 1809251394333065553493296640760748560210191030121347544747167297771872976896nat, 28948022309329048855892746252171976963363056481941560715954676764349967630337int, 1152459932539271282502412778315321715656910685009367906131991176140061168337int);
    lemma_pow_mod_square(2int, 1809251394333065553493296640760748560210191030121347544747167297771872976896nat, 3618502788666131106986593281521497120420382060242695089494334595543745953792nat, 28948022309329048855892746252171976963363056481941560715954676764349967630337int, 4187783116664932233506782288887974992295748463872852847066048337571323463974int);
    lemma_pow_mod_square(2int, 3618502788666131106986593281521497120420382060242695089494334595543745953792nat, 7237005577332262213973186563042994240840764120485390178988669191087491907584nat, 28948022309329048855892746252171976963363056481941560715954676764349967630337int, 28948022309329048855892746252171976963363056481941560715954676764349967630336int);
    lemma_pow_mod_square(2int, 7237005577332262213973186563042994240840764120485390178988669191087491907584nat, 14474011154664524427946373126085988481681528240970780357977338382174983815168nat, 28948022309329048855892746252171976963363056481941560715954676764349967630337int, 1int);
    lemma_pow_mod_square(2int, 14474011154664524427946373126085988481681528240970780357977338382174983815168nat, 28948022309329048855892746252171976963363056481941560715954676764349967630336nat, 28948022309329048855892746252171976963363056481941560715954676764349967630337int, 1int);
}

/// The order of the Pallas base field is prime.
pub proof fn lemma_modulus_is_prime()
    ensures
        is_prime(modulus()),
{
    lemma_large_factor_prime();
    lemma_witness_power_modulus_0();
    lemma_witness_power_modulus_1();
    let qs: Seq<nat> = Seq::empty().push(8999194758858563409123804352480028797519453nat);
    let us: Seq<int> = seq![13506134933905820887257724805409983033698504090997199364682626171592726708858int];
    let ws: Seq<int> = seq![-11089850362661598931727087648914475918022178469895937977707259691347661340051int];
    assert(qs[0] == 8999194758858563409123804352480028797519453nat && us[0] == 13506134933905820887257724805409983033698504090997199364682626171592726708858int && ws[0] == -11089850362661598931727087648914475918022178469895937977707259691347661340051int);
    lemma_seq_product_push(Seq::empty(), 8999194758858563409123804352480028797519453nat);
    assert(((28948022309329048855892746252171976963363056481941560715954676764349967630337nat - 1) as nat) / 8999194758858563409123804352480028797519453nat == 3216734728497058061019394250637312nat);
    assert(seq_product(qs) == 8999194758858563409123804352480028797519453nat);
    assert(seq_product(qs) * seq_product(qs) > 28948022309329048855892746252171976963363056481941560715954676764349967630337nat);
    lemma_pocklington(28948022309329048855892746252171976963363056481941560715954676764349967630337nat, 2nat, qs, us, ws);
}

} // verus!
