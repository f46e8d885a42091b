//! Divisibility, greatest common divisors and least common multiples of
//! machine-sized naturals.

use vstd::arithmetic::div_mod::{
    lemma_fundamental_div_mod, lemma_mod_bound, lemma_mod_multiples_basic,
};
use vstd::prelude::*;

verus! {

/// `d` is a positive divisor of `n`.
pub open spec fn divides(d: nat, n: nat) -> bool {
    d > 0 && n % d == 0
}

/// `d` divides both `a` and `b`.
pub open spec fn common_divisor(d: nat, a: nat, b: nat) -> bool {
    divides(d, a) && divides(d, b)
}

/// `m` is a multiple of both `a` and `b`.
pub open spec fn common_multiple(m: nat, a: nat, b: nat) -> bool {
    divides(a, m) && divides(b, m)
}

/// `d` is the greatest of the common divisors of `a` and `b`.
pub open spec fn is_gcd(d: nat, a: nat, b: nat) -> bool {
    &&& common_divisor(d, a, b)
    &&& forall|e: nat| #[trigger] common_divisor(e, a, b) ==> e <= d
}

/// `l` is the least of the positive common multiples of `a` and `b`.
pub open spec fn is_lcm(l: nat, a: nat, b: nat) -> bool {
    &&& l > 0
    &&& common_multiple(l, a, b)
    &&& forall|m: nat| m > 0 && #[trigger] common_multiple(m, a, b) ==> l <= m
}

/// A multiple of `d` written out as `d * (n / d)`.
pub proof fn lemma_divides_quotient(d: nat, n: nat)
    requires
        divides(d, n),
    ensures
        n == d * (n / d),
{
    lemma_fundamental_div_mod(n as int, d as int);
}

/// Every product `d * k` is divisible by `d`.
pub proof fn lemma_product_divides(d: nat, k: nat)
    requires
        d > 0,
    ensures
        divides(d, d * k),
        divides(d, k * d),
{
    lemma_mod_multiples_basic(k as int, d as int);
    assert(d * k == k * d) by (nonlinear_arith);
}

/// Divisibility carries over to the remainder by another multiple.
pub proof fn lemma_divides_remainder(d: nat, m: nat, l: nat)
    requires
        divides(d, m),
        divides(d, l),
        l > 0,
    ensures
        divides(d, m % l),
{
    let r = m % l;
    let q = m / l;
    lemma_fundamental_div_mod(m as int, l as int);
    lemma_divides_quotient(d, m);
    lemma_divides_quotient(d, l);
    let mq = m / d;
    let lq = l / d;
    assert(r == d * (mq - lq * q)) by (nonlinear_arith)
        requires
            m == l * q + r,
            m == d * mq,
            l == d * lq,
    ;
    assert(mq - lq * q >= 0) by (nonlinear_arith)
        requires
            r == d * (mq - lq * q),
            r >= 0,
            d > 0,
    ;
    lemma_product_divides(d, (mq - lq * q) as nat);
}

/// The least common multiple divides every common multiple.
pub proof fn lemma_lcm_divides_common_multiples(l: nat, a: nat, b: nat, m: nat)
    requires
        is_lcm(l, a, b),
        common_multiple(m, a, b),
    ensures
        divides(l, m),
{
    let r = m % l;
    lemma_divides_remainder(a, m, l);
    lemma_divides_remainder(b, m, l);
    assert(common_multiple(r, a, b));
    assert(r < l) by {
        lemma_mod_bound(m as int, l as int);
    }
}

/// Below every positive common multiple there is a least one.
pub proof fn lemma_lcm_exists(a: nat, b: nat, m: nat)
    requires
        m > 0,
        common_multiple(m, a, b),
    ensures
        exists|l: nat| #[trigger] is_lcm(l, a, b) && l <= m,
    decreases m,
{
    if exists|c: nat| 0 < c < m && #[trigger] common_multiple(c, a, b) {
        let c = choose|c: nat| 0 < c < m && #[trigger] common_multiple(c, a, b);
        lemma_lcm_exists(a, b, c);
    } else {
        assert(is_lcm(m, a, b));
    }
}

/// At most one number is the least common multiple of `a` and `b`.
pub proof fn lemma_lcm_unique(l1: nat, l2: nat, a: nat, b: nat)
    requires
        is_lcm(l1, a, b),
        is_lcm(l2, a, b),
    ensures
        l1 == l2,
{
}

/// The least common multiple of two positive numbers is one of them times the
/// other's quotient by their greatest common divisor.
pub proof fn lemma_lcm_from_gcd(d: nat, a: nat, b: nat)
    requires
        a > 0,
        b > 0,
        is_gcd(d, a, b),
    ensures
        is_lcm(a * (b / d), a, b),
        d * (a * (b / d)) == a * b,
{
    let p = a * (b / d);
    let aq = a / d;
    let bq = b / d;
    lemma_divides_quotient(d, a);
    lemma_divides_quotient(d, b);
    assert(bq > 0) by (nonlinear_arith)
        requires
            b == d * bq,
            b > 0,
    ;
    assert(p == b * aq && d * p == a * b && p > 0) by (nonlinear_arith)
        requires
            p == a * bq,
            a == d * aq,
            b == d * bq,
            a > 0,
            bq > 0,
    ;
    lemma_product_divides(a, bq);
    lemma_product_divides(b, aq);
    assert(common_multiple(p, a, b));
    lemma_lcm_exists(a, b, p);
    let l = choose|l: nat| #[trigger] is_lcm(l, a, b) && l <= p;
    // The product of the two numbers is a common multiple, so `l` divides it.
    lemma_product_divides(a, b);
    lemma_product_divides(b, a);
    assert(common_multiple(a * b, a, b));
    lemma_lcm_divides_common_multiples(l, a, b, a * b);
    let k = (a * b) / l;
    lemma_divides_quotient(l, a * b);
    lemma_divides_quotient(a, l);
    lemma_divides_quotient(b, l);
    let x = l / a;
    let y = l / b;
    assert(b == k * x && a == k * y && k > 0) by (nonlinear_arith)
        requires
            a * b == l * k,
            l == a * x,
            l == b * y,
            a > 0,
            b > 0,
    ;
    lemma_product_divides(k, x);
    lemma_product_divides(k, y);
    assert(common_divisor(k, a, b));
    assert(k <= d);
    assert(l >= p) by (nonlinear_arith)
        requires
            a * b == l * k,
            d * p == a * b,
            0 < k <= d,
            p > 0,
            l > 0,
    ;
}

/// The greatest common divisor, computed by `num_integer::gcd`.
///
/// Trusted: for two numbers that are not both zero the call returns their
/// greatest common divisor.
#[verifier::external_body]
fn gcd(a: usize, b: usize) -> (d: usize)
    requires
        a > 0 || b > 0,
    ensures
        is_gcd(d as nat, a as nat, b as nat),
{
    num_integer::gcd(a, b)
}

/// The least common multiple, computed by `num_integer::lcm`.
///
/// Trusted: for two positive numbers with a common multiple that fits a
/// `usize` the call returns their least common multiple. The call multiplies
/// one number by the other's quotient by the greatest common divisor, so it
/// must not be made when that product does not fit.
#[verifier::external_body]
fn lcm(a: usize, b: usize) -> (l: usize)
    requires
        a > 0,
        b > 0,
        exists|m: nat| 0 < m <= usize::MAX && #[trigger] common_multiple(m, a as nat, b as nat),
    ensures
        is_lcm(l as nat, a as nat, b as nat),
{
    num_integer::lcm(a, b)
}

/// The quotient rounded up, computed by `num_integer::div_ceil`.
///
/// Trusted: for a positive divisor the call returns the quotient, plus one
/// when the division leaves a remainder.
#[verifier::external_body]
fn div_ceil(x: usize, y: usize) -> (q: usize)
    requires
        y > 0,
    ensures
        q == x / y + if x % y == 0 { 0int } else { 1int },
{
    num_integer::div_ceil(x, y)
}

/// The least common multiple of two positive numbers, or `None` when it does
/// not fit a `usize`.
pub fn checked_lcm(a: usize, b: usize) -> (r: Option<usize>)
    requires
        a > 0,
        b > 0,
    ensures
        match r {
            Some(l) => is_lcm(l as nat, a as nat, b as nat),
            None => forall|m: nat|
                m > 0 && #[trigger] common_multiple(m, a as nat, b as nat) ==> m > usize::MAX,
        },
{
    let d: usize = gcd(a, b);
    proof {
        lemma_lcm_from_gcd(d as nat, a as nat, b as nat);
    }
    match a.checked_mul(b / d) {
        Some(p) => {
            assert(common_multiple(p as nat, a as nat, b as nat));
            Some(lcm(a, b))
        },
        None => None,
    }
}

/// The least number of blocks of `unit` bytes that together hold `bytes`
/// bytes.
pub fn blocks_for(bytes: usize, unit: usize) -> (n: usize)
    requires
        unit > 0,
    ensures
        n * unit >= bytes,
        n > 0 ==> (n - 1) * unit < bytes,
{
    let n: usize = div_ceil(bytes, unit);
    proof {
        lemma_fundamental_div_mod(bytes as int, unit as int);
        let q = bytes as int / unit as int;
        let r = bytes as int % unit as int;
        assert(n * unit >= bytes && (n > 0 ==> (n - 1) * unit < bytes)) by (nonlinear_arith)
            requires
                bytes == unit * q + r,
                0 <= r < unit,
                n == q + if r == 0 { 0int } else { 1int },
        ;
    }
    n
}

} // verus!
