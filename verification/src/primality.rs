//! Primes, Euclid's lemma, and Pocklington's criterion, which turns a
//! factored part of `n - 1` and a witness into a proof that `n` is prime.

use vstd::arithmetic::div_mod::*;
use vstd::arithmetic::mul::*;
use vstd::arithmetic::power::*;
use vstd::prelude::*;
use vstd::relations::injective_on;
use vstd::set_lib::*;

verus! {

/// `n` is a prime: greater than 1, and no number strictly between 1 and `n`
/// divides it.
pub open spec fn is_prime(n: nat) -> bool {
    n > 1 && forall|d: nat| 1 < d < n ==> #[trigger] (n % d) != 0
}

/// The product of a sequence of numbers.
pub open spec fn seq_product(s: Seq<nat>) -> nat
    decreases s.len(),
{
    if s.len() == 0 {
        1
    } else {
        s.last() * seq_product(s.drop_last())
    }
}

/// Appending a number multiplies the product by it.
pub proof fn lemma_seq_product_push(s: Seq<nat>, x: nat)
    ensures
        seq_product(s.push(x)) == x * seq_product(s),
        seq_product(Seq::<nat>::empty()) == 1,
{
    assert(s.push(x).drop_last() =~= s);
}

/// Euclid's lemma, for a factor reduced below the prime.
proof fn lemma_euclid_reduced(p: nat, a: nat, b: int)
    requires
        is_prime(p),
        0 < a < p,
        (a * b) % (p as int) == 0,
    ensures
        b % (p as int) == 0,
    decreases a,
{
    if a > 1 {
        let pi = p as int;
        let k = pi / (a as int);
        let s = pi % (a as int);
        lemma_fundamental_div_mod(pi, a as int);
        assert(p % a != 0);
        assert(s > 0);
        let t = (a * b) / pi;
        lemma_fundamental_div_mod(a * b, pi);
        assert(a * b == pi * t);
        assert(s * b == pi * (b - k * t)) by (nonlinear_arith)
            requires
                pi == (a as int) * k + s,
                a * b == pi * t,
        ;
        lemma_mod_multiples_basic(b - k * t, pi);
        assert((s * b) % pi == 0);
        lemma_euclid_reduced(p, s as nat, b);
    } else {
        assert(a * b == b) by (nonlinear_arith)
            requires
                a == 1,
        ;
    }
}

/// Euclid's lemma: a prime that divides a product divides one of its factors.
pub proof fn lemma_euclid(p: nat, a: int, b: int)
    requires
        is_prime(p),
        (a * b) % (p as int) == 0,
    ensures
        a % (p as int) == 0 || b % (p as int) == 0,
{
    let pi = p as int;
    let ar = a % pi;
    if ar != 0 {
        lemma_mul_mod_noop_left(a, b, pi);
        assert((ar * b) % pi == 0);
        lemma_euclid_reduced(p, ar as nat, b);
    }
}

/// Every number above 1 has a prime factor.
pub proof fn lemma_prime_factor(n: nat) -> (r: nat)
    requires
        n > 1,
    ensures
        is_prime(r),
        n % r == 0,
        r <= n,
    decreases n,
{
    if is_prime(n) {
        lemma_mod_self_0(n as int);
        n
    } else {
        let d = choose|d: nat| 1 < d < n && #[trigger] (n % d) == 0;
        let r = lemma_prime_factor(d);
        lemma_fundamental_div_mod(n as int, d as int);
        lemma_fundamental_div_mod(d as int, r as int);
        let k = n / d;
        let j = d / r;
        assert(n == r * (j * k)) by (nonlinear_arith)
            requires
                n == d * k,
                d == r * j,
        ;
        lemma_mod_multiples_basic((j * k) as int, r as int);
        r
    }
}

/// A prime does not divide a product of primes that differ from it.
proof fn lemma_prime_not_divides_product(q: nat, qs: Seq<nat>)
    requires
        is_prime(q),
        forall|i: int| 0 <= i < qs.len() ==> is_prime(#[trigger] qs[i]) && qs[i] != q,
    ensures
        seq_product(qs) % q != 0,
    decreases qs.len(),
{
    if qs.len() == 0 {
        lemma_small_mod(1, q);
    } else {
        let rest = qs.drop_last();
        let last = qs.last();
        lemma_prime_not_divides_product(q, rest);
        assert(is_prime(last) && last != q);
        if seq_product(qs) % q == 0 {
            lemma_euclid(q, last as int, seq_product(rest) as int);
            if last % q == 0 {
                lemma_fundamental_div_mod(last as int, q as int);
                if q < last {
                    assert(last % q != 0);
                } else {
                    lemma_small_mod(last, q);
                }
            }
        }
    }
}

/// A number that distinct primes divide is divisible by their product.
proof fn lemma_product_divides(d: nat, qs: Seq<nat>)
    requires
        forall|i: int| 0 <= i < qs.len() ==> is_prime(#[trigger] qs[i]) && d % qs[i] == 0,
        forall|i: int, j: int| 0 <= i < j < qs.len() ==> qs[i] != qs[j],
    ensures
        d % seq_product(qs) == 0,
    decreases qs.len(),
{
    if qs.len() == 0 {
        assert(seq_product(qs) == 1);
        lemma_mod_multiples_basic(d as int, 1);
        assert(d * 1 == d);
    } else {
        let rest = qs.drop_last();
        let q = qs.last();
        lemma_product_divides(d, rest);
        assert(forall|i: int| 0 <= i < rest.len() ==> is_prime(#[trigger] rest[i]) && rest[i] != q) by {
            assert forall|i: int| 0 <= i < rest.len() implies is_prime(#[trigger] rest[i]) && rest[i] != q by {
                assert(rest[i] == qs[i]);
                assert(qs[qs.len() - 1] == q);
            }
        }
        lemma_prime_not_divides_product(q, rest);
        let pr = seq_product(rest);
        assert(pr > 0) by {
            if pr == 0 {
                lemma_small_mod(0, q);
            }
        }
        lemma_fundamental_div_mod(d as int, pr as int);
        let k = d / pr;
        assert(d == pr * k);
        assert(is_prime(q) && d % q == 0);
        lemma_euclid(q, pr as int, k as int);
        lemma_fundamental_div_mod(k as int, q as int);
        let j = k / q;
        assert(d == (q * pr) * j) by (nonlinear_arith)
            requires
                d == pr * k,
                k == q * j,
        ;
        assert(q * pr > 0) by (nonlinear_arith)
            requires
                q > 1,
                pr > 0,
        ;
        lemma_mod_multiples_basic(j as int, (q * pr) as int);
        assert(seq_product(qs) == q * pr);
        assert(j * (q * pr) == (q * pr) * j) by (nonlinear_arith);
    }
}

/// Divisibility is transitive.
proof fn lemma_divides_trans(a: nat, b: nat, c: nat)
    requires
        a > 0,
        b > 0,
        b % a == 0,
        c % b == 0,
    ensures
        c % a == 0,
{
    lemma_fundamental_div_mod(b as int, a as int);
    lemma_fundamental_div_mod(c as int, b as int);
    let j = b / a;
    let k = c / b;
    assert(c == a * (j * k)) by (nonlinear_arith)
        requires
            b == a * j,
            c == b * k,
    ;
    lemma_mod_multiples_basic((j * k) as int, a as int);
}

/// A positive multiple of `f` is at least `f`.
proof fn lemma_multiple_at_least(d: nat, f: nat)
    requires
        d > 0,
        f > 0,
        d % f == 0,
    ensures
        f <= d,
{
    lemma_fundamental_div_mod(d as int, f as int);
    let k = d / f;
    assert(f <= d) by (nonlinear_arith)
        requires
            d == f * k,
            d > 0,
            f > 0,
    ;
}

/// A number that is 1 modulo `n` is 1 modulo every divisor of `n` above 1.
proof fn lemma_mod_divisor(x: int, n: nat, r: nat)
    requires
        r > 1,
        n > 0,
        n % r == 0,
    ensures
        (x % (n as int)) % (r as int) == x % (r as int),
{
    lemma_fundamental_div_mod(n as int, r as int);
    let k = (n / r) as int;
    assert(k > 0) by (nonlinear_arith)
        requires
            n == r * k,
            n > 0,
            r > 1,
    ;
    lemma_mod_mod(x, r as int, k);
}

/// Once `a^d` is 1 modulo `r`, so is every power `a^(d m)`.
proof fn lemma_pow_mod_one_multiple(a: int, d: nat, m: nat, r: int)
    requires
        r > 1,
        pow(a, d) % r == 1,
    ensures
        pow(a, d * m) % r == 1,
{
    lemma_pow_multiplies(a, d, m);
    lemma_pow_mod_noop(pow(a, d), m, r);
    lemma1_pow(m);
    lemma_small_mod(1, r as nat);
}

/// A factor that is 1 modulo `r` leaves a power unchanged modulo `r`.
proof fn lemma_pow_mod_shift(a: int, e1: nat, e2: nat, r: int)
    requires
        r > 1,
        pow(a, e1) % r == 1,
    ensures
        pow(a, e1 + e2) % r == pow(a, e2) % r,
{
    lemma_pow_adds(a, e1, e2);
    lemma_mul_mod_noop_left(pow(a, e1), pow(a, e2), r);
}

/// The least positive exponent that makes a power of `a` equal to 1 modulo `r`.
proof fn lemma_least_order(a: int, r: int, e: nat) -> (d: nat)
    requires
        r > 1,
        e > 0,
        pow(a, e) % r == 1,
    ensures
        0 < d <= e,
        pow(a, d) % r == 1,
        forall|k: nat| 0 < k < d ==> #[trigger] pow(a, k) % r != 1,
    decreases e,
{
    if exists|k: nat| 0 < k < e && #[trigger] pow(a, k) % r == 1 {
        let k = choose|k: nat| 0 < k < e && #[trigger] pow(a, k) % r == 1;
        lemma_least_order(a, r, k)
    } else {
        e
    }
}

/// Every exponent that gives 1 modulo `r` is a multiple of the least one.
proof fn lemma_order_divides(a: int, r: int, d: nat, e: nat)
    requires
        r > 1,
        d > 0,
        pow(a, d) % r == 1,
        forall|k: nat| 0 < k < d ==> #[trigger] pow(a, k) % r != 1,
        pow(a, e) % r == 1,
    ensures
        e % d == 0,
{
    lemma_fundamental_div_mod(e as int, d as int);
    let m = e / d;
    let s = e % d;
    lemma_pow_mod_one_multiple(a, d, m, r);
    assert(e == d * m + s);
    lemma_pow_mod_shift(a, d * m, s, r);
}

/// A prime that does not divide `a` divides no power of `a`.
proof fn lemma_pow_not_divisible(a: int, i: nat, r: nat)
    requires
        is_prime(r),
        a % (r as int) != 0,
    ensures
        pow(a, i) % (r as int) != 0,
    decreases i,
{
    if i == 0 {
        lemma_pow0(a);
        lemma_small_mod(1, r);
    } else {
        lemma_pow_not_divisible(a, (i - 1) as nat, r);
        lemma_pow1(a);
        lemma_pow_adds(a, 1, (i - 1) as nat);
        if pow(a, i) % (r as int) == 0 {
            lemma_euclid(r, a, pow(a, (i - 1) as nat));
        }
    }
}

/// Modulo a prime that does not divide `a`, two powers of `a` that agree
/// differ by a power that is 1.
proof fn lemma_equal_powers(a: int, r: nat, i: nat, j: nat)
    requires
        is_prime(r),
        a % (r as int) != 0,
        i < j,
        pow(a, i) % (r as int) == pow(a, j) % (r as int),
    ensures
        pow(a, (j - i) as nat) % (r as int) == 1,
{
    let ri = r as int;
    let x = pow(a, i);
    let y = pow(a, (j - i) as nat);
    lemma_pow_adds(a, i, (j - i) as nat);
    assert(pow(a, j) == x * y);
    lemma_sub_mod_noop(x * y, x, ri);
    lemma_mod_self_0(ri);
    lemma_small_mod(0, r);
    assert((x * y - x) % ri == 0);
    lemma_mul_is_distributive_sub(x, y, 1);
    assert(x * (y - 1) == x * y - x);
    lemma_pow_not_divisible(a, i, r);
    lemma_euclid(r, x, y - 1);
    lemma_add_mod_noop(y - 1, 1, ri);
    lemma_small_mod(1, r);
}

/// Modulo a prime `r` that does not divide `a`, the least exponent that
/// gives 1 is below `r`: the powers before it are distinct and nonzero.
proof fn lemma_order_below_prime(a: int, r: nat, d: nat)
    requires
        is_prime(r),
        a % (r as int) != 0,
        d > 0,
        forall|k: nat| 0 < k < d ==> #[trigger] pow(a, k) % (r as int) != 1,
    ensures
        d < r,
{
    let ri = r as int;
    let f = |i: int| pow(a, i as nat) % ri;
    let xs = set_int_range(0, d as int);
    let ys = xs.map(f);
    lemma_int_range(0, d as int);
    assert(injective_on(f, xs)) by {
        assert forall|i: int, j: int|
            xs.contains(i) && xs.contains(j) && #[trigger] f(i) == #[trigger] f(j) implies i == j by {
            if i < j {
                lemma_equal_powers(a, r, i as nat, j as nat);
                assert(0 < ((j - i) as nat) < d);
            } else if j < i {
                lemma_equal_powers(a, r, j as nat, i as nat);
                assert(0 < ((i - j) as nat) < d);
            }
        }
    }
    lemma_map_size(xs, ys, f);
    let range = set_int_range(1, ri);
    lemma_int_range(1, ri);
    assert(ys.subset_of(range)) by {
        assert forall|y: int| ys.contains(y) implies range.contains(y) by {
            let i = choose|i: int| xs.contains(i) && y == f(i);
            lemma_pow_not_divisible(a, i as nat, r);
        }
    }
    lemma_len_subset(ys, range);
}

/// What Pocklington's criterion asks of `n`: `a^(n-1)` is 1 modulo `n`; the
/// numbers `qs` are distinct primes dividing `n - 1` whose product exceeds
/// the square root of `n`; and for each `q` of them, `us` and `ws` show that
/// `a^((n-1)/q) - 1` and `n` have no common divisor above 1.
pub open spec fn pocklington_certificate(n: nat, a: nat, qs: Seq<nat>, us: Seq<int>, ws: Seq<int>) -> bool {
    &&& n > 1
    &&& pow(a as int, (n - 1) as nat) % (n as int) == 1
    &&& us.len() == qs.len()
    &&& ws.len() == qs.len()
    &&& forall|i: int| 0 <= i < qs.len() ==> is_prime(#[trigger] qs[i]) && ((n - 1) as nat) % qs[i] == 0
    &&& forall|i: int|
        0 <= i < qs.len() ==> us[i] * (pow(a as int, (((n - 1) as nat) / #[trigger] qs[i]) as nat) % (n as int) - 1)
            + ws[i] * n == 1
    &&& forall|i: int, j: int| 0 <= i < j < qs.len() ==> qs[i] != qs[j]
    &&& seq_product(qs) * seq_product(qs) > n
}

/// Under Pocklington's criterion every prime factor of `n` exceeds the
/// product of `qs`.
proof fn lemma_prime_factor_exceeds(n: nat, a: nat, qs: Seq<nat>, us: Seq<int>, ws: Seq<int>, r: nat)
    requires
        pocklington_certificate(n, a, qs, us, ws),
        is_prime(r),
        n % r == 0,
    ensures
        r > seq_product(qs),
{
    let ai = a as int;
    let ri = r as int;
    let e = (n - 1) as nat;
    lemma_mod_divisor(pow(ai, e), n, r);
    lemma_small_mod(1, r);
    assert(pow(ai, e) % ri == 1);
    if ai % ri == 0 {
        lemma_pow_mod_noop(ai, e, ri);
        lemma0_pow(e);
        lemma_small_mod(0, r);
    }
    let d = lemma_least_order(ai, ri, e);
    lemma_order_below_prime(ai, r, d);
    lemma_order_divides(ai, ri, d, e);
    assert forall|i: int| 0 <= i < qs.len() implies is_prime(#[trigger] qs[i]) && d % qs[i] == 0 by {
        let q = qs[i];
        let eq = e / q;
        lemma_fundamental_div_mod(e as int, q as int);
        lemma_fundamental_div_mod(e as int, d as int);
        let t = e / d;
        assert(e == q * eq);
        assert(e == d * t);
        if eq % d == 0 {
            // then a^eq is 1 modulo r, and r divides both a^eq - 1 and n
            lemma_fundamental_div_mod(eq as int, d as int);
            lemma_pow_mod_one_multiple(ai, d, eq / d, ri);
            assert(pow(ai, eq) % ri == 1);
            let x = pow(ai, eq) % (n as int);
            lemma_mod_divisor(pow(ai, eq), n, r);
            lemma_sub_mod_noop(x, 1, ri);
            lemma_small_mod(0, r);
            assert(x % ri == 1);
            assert((x - 1) % ri == 0);
            lemma_fundamental_div_mod(x - 1, ri);
            lemma_fundamental_div_mod(n as int, ri);
            let k1 = (x - 1) / ri;
            let k2 = (n as int) / ri;
            let u = us[i];
            let w = ws[i];
            assert(u * (x - 1) + w * n == 1);
            assert(1 == ri * (u * k1 + w * k2)) by (nonlinear_arith)
                requires
                    u * (x - 1) + w * n == 1,
                    x - 1 == ri * k1,
                    n == ri * k2,
            ;
            lemma_mod_multiples_basic(u * k1 + w * k2, ri);
        }
        assert(((d as int) * (t as int)) % (q as int) == 0) by {
            lemma_mod_multiples_basic(eq as int, q as int);
        }
        lemma_euclid(q, d as int, t as int);
        if (t as int) % (q as int) == 0 {
            lemma_fundamental_div_mod(t as int, q as int);
            let t2 = t / q;
            assert(eq == d * t2) by (nonlinear_arith)
                requires
                    q * eq == d * t,
                    t == q * t2,
                    q > 0,
            ;
            lemma_mod_multiples_basic(t2 as int, d as int);
        }
    }
    lemma_product_divides(d, qs);
    assert(seq_product(qs) > 0) by {
        if seq_product(qs) == 0 {
            assert(seq_product(qs) * seq_product(qs) == 0);
        }
    }
    lemma_multiple_at_least(d, seq_product(qs));
}

/// Pocklington's criterion: a number with a certificate is prime.
pub proof fn lemma_pocklington(n: nat, a: nat, qs: Seq<nat>, us: Seq<int>, ws: Seq<int>)
    requires
        pocklington_certificate(n, a, qs, us, ws),
    ensures
        is_prime(n),
{
    let f = seq_product(qs);
    assert forall|k: nat| 1 < k < n implies #[trigger] (n % k) != 0 by {
        if n % k == 0 {
            let r1 = lemma_prime_factor(k);
            lemma_divides_trans(r1, k, n);
            lemma_prime_factor_exceeds(n, a, qs, us, ws, r1);
            lemma_fundamental_div_mod(n as int, k as int);
            let s = n / k;
            assert(1 < s < n) by (nonlinear_arith)
                requires
                    n == k * s,
                    1 < k < n,
            ;
            lemma_mul_is_commutative(k as int, s as int);
            lemma_mod_multiples_basic(k as int, s as int);
            assert(n % s == 0);
            let r2 = lemma_prime_factor(s);
            lemma_divides_trans(r2, s, n);
            lemma_prime_factor_exceeds(n, a, qs, us, ws, r2);
            assert(false) by (nonlinear_arith)
                requires
                    n == k * s,
                    k >= r1,
                    s >= r2,
                    r1 > f,
                    r2 > f,
                    f * f > n,
            ;
        }
    }
}

/// A modular power to an exponent of one.
pub proof fn lemma_pow_mod_base(b: int, m: int)
    requires
        m > 0,
    ensures
        pow(b, 1) % m == b % m,
{
    lemma_pow1(b);
}

/// Squaring doubles the exponent of a modular power.
pub proof fn lemma_pow_mod_square(b: int, e: nat, e2: nat, m: int, x: int)
    requires
        m > 0,
        pow(b, e) % m == x,
        e2 == e + e,
    ensures
        pow(b, e2) % m == (x * x) % m,
{
    lemma_pow_adds(b, e, e);
    lemma_mul_mod_noop(pow(b, e), pow(b, e), m);
}

/// Squaring and one more factor of the base give the exponent `2 e + 1`.
pub proof fn lemma_pow_mod_square_mul(b: int, e: nat, e2: nat, m: int, x: int)
    requires
        m > 0,
        pow(b, e) % m == x,
        e2 == e + e + 1,
    ensures
        pow(b, e2) % m == (x * x * b) % m,
{
    lemma_pow_mod_square(b, e, (e + e) as nat, m, x);
    lemma_pow_adds(b, (e + e) as nat, 1);
    lemma_pow1(b);
    lemma_mul_mod_noop_left(pow(b, (e + e) as nat), b, m);
    lemma_mul_mod_noop_left(x * x, b, m);
}

} // verus!
