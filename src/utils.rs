//! Integer helpers shared by the scalar type.
use vstd::prelude::*;
use crate::expression::Expr;

verus! {

/// The scalar types that support the four basic operators.
pub trait Number: core::ops::Add + core::ops::Sub + core::ops::Mul + core::ops::Div + Sized {}

impl Number for i8 {}

impl Number for i16 {}

impl Number for i32 {}

impl Number for i64 {}

impl Number for i128 {}

impl Number for u8 {}

impl Number for u16 {}

impl Number for u32 {}

impl Number for u64 {}

impl Number for u128 {}

impl Number for isize {}

impl Number for usize {}

impl Number for Expr {}

/// Magnitude of an integer.
pub open spec fn abs(x: int) -> int {
    if x >= 0 {
        x
    } else {
        -x
    }
}

/// The remainder of truncating division, the one Rust's `%` computes on signed integers:
/// it takes the sign of `a`.
pub open spec fn trunc_rem(a: int, b: int) -> int {
    if a >= 0 {
        a % b
    } else {
        -((-a) % b)
    }
}

/// Euclid's algorithm on signed integers with truncating remainders.
/// Its magnitude is the greatest common divisor; its sign follows the remainder chain.
pub open spec fn euclid(a: int, b: int) -> int
    decreases abs(b),
{
    if b == 0 {
        a
    } else {
        euclid(b, trunc_rem(a, b))
    }
}

/// The greatest common divisor of two natural numbers (`gcd_nat(0, 0) == 0`).
pub open spec fn gcd_nat(a: nat, b: nat) -> nat
    decreases b,
{
    if b == 0 {
        a
    } else {
        gcd_nat(b, a % b)
    }
}

/// A truncating remainder has the magnitude of the remainder of the magnitudes.
proof fn lemma_trunc_rem_abs(a: int, b: int)
    requires
        b != 0,
    ensures
        abs(trunc_rem(a, b)) == abs(a) % abs(b),
{
    let x = abs(a);
    let m = abs(b);
    assert(x % b == x % m) by {
        vstd::arithmetic::div_mod::lemma_fundamental_div_mod(x, b);
        vstd::arithmetic::div_mod::lemma_fundamental_div_mod(x, m);
        let q = x / b;
        if b < 0 {
            assert(b * q == m * (-q)) by (nonlinear_arith)
                requires
                    m == -b,
            ;
            vstd::arithmetic::div_mod::lemma_fundamental_div_mod_converse(x, m, -q, x % b);
        }
    }
}

/// The magnitude of `euclid` is the greatest common divisor of the magnitudes.
pub proof fn lemma_euclid_abs(a: int, b: int)
    ensures
        abs(euclid(a, b)) == gcd_nat(abs(a) as nat, abs(b) as nat),
    decreases abs(b),
{
    if b != 0 {
        lemma_trunc_rem_abs(a, b);
        lemma_euclid_abs(b, trunc_rem(a, b));
    }
}

/// The greatest common divisor divides both arguments, and is zero only when both are.
pub proof fn lemma_gcd_divides(a: nat, b: nat)
    ensures
        gcd_nat(a, b) == 0 <==> (a == 0 && b == 0),
        gcd_nat(a, b) > 0 ==> a % gcd_nat(a, b) == 0 && b % gcd_nat(a, b) == 0,
    decreases b,
{
    if b == 0 {
        if a > 0 {
            vstd::arithmetic::div_mod::lemma_mod_self_0(a as int);
        }
    } else {
        let r = a % b;
        lemma_gcd_divides(b, r);
        let g = gcd_nat(b, r);
        assert(g > 0);
        vstd::arithmetic::div_mod::lemma_fundamental_div_mod(a as int, b as int);
        vstd::arithmetic::div_mod::lemma_fundamental_div_mod(b as int, g as int);
        vstd::arithmetic::div_mod::lemma_fundamental_div_mod(r as int, g as int);
        let q = a / b;
        let k1 = b / g;
        let k2 = r / g;
        assert(a == g * (q * k1 + k2)) by (nonlinear_arith)
            requires
                a == b * q + r,
                b == g * k1,
                r == g * k2,
        ;
        vstd::arithmetic::div_mod::lemma_mod_multiples_basic((q * k1 + k2) as int, g as int);
        assert((g * (q * k1 + k2)) == (q * k1 + k2) * g) by (nonlinear_arith);
    }
}

/// Every positive common divisor of `a` and `b` divides their greatest common divisor.
pub proof fn lemma_gcd_greatest(a: nat, b: nat, d: nat)
    requires
        d > 0,
        a % d == 0,
        b % d == 0,
    ensures
        gcd_nat(a, b) % d == 0,
    decreases b,
{
    if b > 0 {
        let r = a % b;
        vstd::arithmetic::div_mod::lemma_fundamental_div_mod(a as int, b as int);
        vstd::arithmetic::div_mod::lemma_fundamental_div_mod(a as int, d as int);
        vstd::arithmetic::div_mod::lemma_fundamental_div_mod(b as int, d as int);
        let q = a / b;
        let ka = a / d;
        let kb = b / d;
        assert(r == (ka - q * kb) * d) by (nonlinear_arith)
            requires
                a == b * q + r,
                a == d * ka,
                b == d * kb,
        ;
        vstd::arithmetic::div_mod::lemma_mod_multiples_basic(ka - q * kb, d as int);
        lemma_gcd_greatest(b, r, d);
    }
}

/// Dividing both numbers by their greatest common divisor leaves coprime quotients.
pub proof fn lemma_gcd_quotients_coprime(a: nat, b: nat)
    requires
        gcd_nat(a, b) > 0,
    ensures
        gcd_nat(a / gcd_nat(a, b), b / gcd_nat(a, b)) == 1,
{
    let g = gcd_nat(a, b);
    lemma_gcd_divides(a, b);
    vstd::arithmetic::div_mod::lemma_fundamental_div_mod(a as int, g as int);
    vstd::arithmetic::div_mod::lemma_fundamental_div_mod(b as int, g as int);
    let a1 = a / g;
    let b1 = b / g;
    let h = gcd_nat(a1, b1);
    lemma_gcd_divides(a1, b1);
    if a1 == 0 && b1 == 0 {
        assert(a == 0 && b == 0);
        assert(false);
    }
    assert(h > 0);
    vstd::arithmetic::div_mod::lemma_fundamental_div_mod(a1 as int, h as int);
    vstd::arithmetic::div_mod::lemma_fundamental_div_mod(b1 as int, h as int);
    let ka = a1 / h;
    let kb = b1 / h;
    assert(a == ka * (g * h)) by (nonlinear_arith)
        requires
            a == g * a1 + 0,
            a1 == h * ka + 0,
    ;
    assert(b == kb * (g * h)) by (nonlinear_arith)
        requires
            b == g * b1 + 0,
            b1 == h * kb + 0,
    ;
    assert(g * h > 0) by (nonlinear_arith)
        requires
            g > 0,
            h > 0,
    ;
    vstd::arithmetic::div_mod::lemma_mod_multiples_basic(ka as int, (g * h) as int);
    vstd::arithmetic::div_mod::lemma_mod_multiples_basic(kb as int, (g * h) as int);
    lemma_gcd_greatest(a, b, (g * h) as nat);
    vstd::arithmetic::div_mod::lemma_fundamental_div_mod(g as int, (g * h) as int);
    let t = g / (g * h);
    assert(h == 1) by (nonlinear_arith)
        requires
            g == (g * h) * t + 0,
            g > 0,
            h > 0,
    ;
}

/// For `d != 0` the greatest common divisor of `|n|` and `|d|` lies in `1..=|d|` and
/// divides both.
pub proof fn lemma_gcd_bounds(n: int, d: int)
    requires
        d != 0,
    ensures
        ({
            let g = gcd_nat(abs(n) as nat, abs(d) as nat) as int;
            &&& 1 <= g <= abs(d)
            &&& abs(n) % g == 0
            &&& abs(d) % g == 0
        }),
{
    let g = gcd_nat(abs(n) as nat, abs(d) as nat) as int;
    lemma_gcd_divides(abs(n) as nat, abs(d) as nat);
    vstd::arithmetic::div_mod::lemma_fundamental_div_mod(abs(d), g);
    let k = abs(d) / g;
    assert(g <= abs(d)) by (nonlinear_arith)
        requires
            abs(d) == g * k + 0,
            g > 0,
            abs(d) > 0,
    ;
}

/// Dividing a multiple of `g > 0` is exact, so Rust's truncating `/` (which rounds the
/// magnitude) agrees with the Euclidean `/` of specifications, and shrinks the magnitude.
pub proof fn lemma_exact_quotient(x: int, g: int)
    requires
        g > 0,
        abs(x) % g == 0,
    ensures
        x < 0 ==> x / g == -((-x) / g),
        x >= 0 ==> x / g >= 0,
        abs(x / g) <= abs(x),
        (x / g) * g == x,
{
    let a = abs(x);
    vstd::arithmetic::div_mod::lemma_fundamental_div_mod(a, g);
    let k = a / g;
    assert(a == k * g) by (nonlinear_arith)
        requires
            a == g * k + 0,
    ;
    vstd::arithmetic::div_mod::lemma_div_multiples_vanish(k, g);
    vstd::arithmetic::div_mod::lemma_div_multiples_vanish(-k, g);
    assert(g * k == k * g) by (nonlinear_arith);
    assert(g * (-k) == -(k * g)) by (nonlinear_arith);
    assert(0 <= k <= a) by (nonlinear_arith)
        requires
            a == k * g,
            g >= 1,
            a >= 0,
    ;
    if x < 0 {
        assert(x == g * (-k));
        assert(x / g == -k);
        assert((-x) / g == k);
        assert((-k) * g == x) by (nonlinear_arith)
            requires
                x == g * (-k),
        ;
    } else {
        assert(x == g * k);
        assert(x / g == k);
    }
}

/// Greatest common divisor by Euclid's algorithm on `i128`, with Rust's truncating remainder.
///
/// The result's magnitude is the greatest common divisor of the magnitudes of the arguments.
/// The two argument pairs on which a remainder would overflow (`i128::MIN` against `-1`)
/// are left out.
pub fn gcd(numerator: i128, denominator: i128) -> (r: i128)
    requires
        !(numerator == i128::MIN && denominator == -1),
        !(numerator == -1 && denominator == i128::MIN),
    ensures
        r as int == euclid(numerator as int, denominator as int),
        abs(r as int) == gcd_nat(abs(numerator as int) as nat, abs(denominator as int) as nat),
{
    let mut a: i128 = numerator;
    let mut b: i128 = denominator;
    while b != 0
        invariant
            !(a == i128::MIN && b == -1),
            !(a == -1 && b == i128::MIN),
            euclid(a as int, b as int) == euclid(numerator as int, denominator as int),
        decreases abs(b as int),
    {
        let temp = b;
        b = a % b;
        a = temp;
    }
    proof {
        lemma_euclid_abs(numerator as int, denominator as int);
    }
    a
}

} // verus!
