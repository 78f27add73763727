//! The exact value of an expression: a fraction of integers, computed with checked `i128`
//! arithmetic. Equality and ordering of expressions go by this value, not by tree shape.
use vstd::prelude::*;
use vstd::arithmetic::power::pow;
use crate::expression::Expr;
use crate::utils::{
    abs, gcd, gcd_nat, lemma_exact_quotient, lemma_gcd_bounds, lemma_gcd_divides,
    lemma_gcd_quotients_coprime, trunc_rem,
};

verus! {

/// A fraction `num / den`. The values that `Expr::exact` returns are in lowest terms with
/// `den > 0`.
#[derive(Clone, Copy, Debug, PartialEq, Eq, Structural)]
pub struct Ratio {
    pub num: i128,
    pub den: i128,
}

impl Ratio {
    /// The fraction as a pair of mathematical integers.
    pub open spec fn pair(self) -> (int, int) {
        (self.num as int, self.den as int)
    }
}

/// Why a number could not be produced.
#[derive(Clone, Copy, Debug, PartialEq, Eq, Structural)]
pub enum NumericError {
    /// A float that is NaN or infinite.
    InvalidNumericInput,
    /// An integer result, or an intermediate product or sum, does not fit in `i128`.
    ArithmeticOverflow,
    /// A fractional power of a positive base whose reduced parts are not exact powers of the
    /// exponent's denominator: its value is irrational.
    NotRational,
}

/// `x` is representable as an `i128`.
pub open spec fn fits(x: int) -> bool {
    i128::MIN <= x <= i128::MAX
}

/// `n / d` in lowest terms, for `d > 0`.
pub open spec fn lowest(n: int, d: int) -> (int, int) {
    let g = gcd_nat(abs(n) as nat, d as nat) as int;
    (n / g, d / g)
}

/// A fraction in lowest terms with a positive denominator.
pub open spec fn canonical(p: (int, int)) -> bool {
    p.1 > 0 && gcd_nat(abs(p.0) as nat, p.1 as nat) == 1
}

/// `lowest(n, d)` is canonical, has the value `n / d`, and is no larger than `(n, d)`.
pub proof fn lemma_lowest(n: int, d: int)
    requires
        d > 0,
    ensures
        canonical(lowest(n, d)),
        lowest(n, d).0 * d == n * lowest(n, d).1,
        abs(lowest(n, d).0) <= abs(n),
        n >= 0 ==> lowest(n, d).0 >= 0,
        n < 0 ==> lowest(n, d).0 <= 0,
        1 <= lowest(n, d).1 <= d,
{
    let g = gcd_nat(abs(n) as nat, d as nat) as int;
    lemma_gcd_bounds(n, d);
    lemma_exact_quotient(n, g);
    lemma_exact_quotient(d, g);
    lemma_gcd_quotients_coprime(abs(n) as nat, d as nat);
    let p = n / g;
    let q = d / g;
    assert(abs(p) == abs(n) / g) by {
        lemma_exact_quotient(abs(n), g);
        if n < 0 {
            assert(abs(n) == -n);
        }
    }
    assert(q > 0) by (nonlinear_arith)
        requires
            q * g == d,
            g > 0,
            d > 0,
    ;
    assert(p * d == n * q) by (nonlinear_arith)
        requires
            p * g == n,
            q * g == d,
    ;
}

/// A canonical fraction is its own lowest form.
pub proof fn lemma_lowest_canonical(p: (int, int))
    requires
        canonical(p),
    ensures
        lowest(p.0, p.1) == p,
{
}

/// A pair of integers read back as a `Ratio`.
pub open spec fn to_ratio(p: (int, int)) -> Ratio {
    Ratio { num: p.0 as i128, den: p.1 as i128 }
}

/// Exact sum of two fractions.
pub open spec fn add_q(p: (int, int), q: (int, int)) -> (int, int) {
    lowest(p.0 * q.1 + q.0 * p.1, p.1 * q.1)
}

/// Exact difference of two fractions.
pub open spec fn sub_q(p: (int, int), q: (int, int)) -> (int, int) {
    lowest(p.0 * q.1 - q.0 * p.1, p.1 * q.1)
}

/// Exact product of two fractions.
pub open spec fn mul_q(p: (int, int), q: (int, int)) -> (int, int) {
    lowest(p.0 * q.0, p.1 * q.1)
}

/// Exact quotient of two fractions, for `q.0 != 0`.
pub open spec fn div_q(p: (int, int), q: (int, int)) -> (int, int) {
    if q.0 > 0 {
        lowest(p.0 * q.1, p.1 * q.0)
    } else {
        lowest(-(p.0 * q.1), -(p.1 * q.0))
    }
}

/// Remainder of truncating division of two fractions (`p - trunc(p / q) * q`), for `q.0 != 0`.
pub open spec fn rem_q(p: (int, int), q: (int, int)) -> (int, int) {
    lowest(trunc_rem(p.0 * q.1, q.0 * p.1), p.1 * q.1)
}

/// `p` raised to the integer `k`; for `k < 0` it asks `p.0 != 0`.
pub open spec fn pow_q(p: (int, int), k: int) -> (int, int) {
    let n = pow(p.0, abs(k) as nat);
    let d = pow(p.1, abs(k) as nat);
    if k >= 0 {
        lowest(n, d)
    } else if n > 0 {
        lowest(d, n)
    } else {
        lowest(-d, -n)
    }
}

/// `r` is the non-negative `k`-th root of `x`.
pub open spec fn is_root(r: int, x: int, k: nat) -> bool {
    r >= 0 && pow(r, k) == x
}

/// `x` has a non-negative integer `k`-th root.
pub open spec fn has_root(x: int, k: nat) -> bool {
    exists|r: int| is_root(r, x, k)
}

/// The non-negative integer `k`-th root of `x`, where `has_root(x, k)`.
pub open spec fn root(x: int, k: nat) -> int {
    choose|r: int| is_root(r, x, k)
}

/// The fraction `p` has a rational `k`-th root, for `k >= 1`: trivially for `k == 1`, else
/// when `p` is non-negative and both parts are exact `k`-th powers.
pub open spec fn rooted(p: (int, int), k: int) -> bool {
    k == 1 || (p.0 >= 0 && has_root(p.0, k as nat) && has_root(p.1, k as nat))
}

/// The `k`-th root of the fraction `p`, where `rooted(p, k)`.
pub open spec fn root_base(p: (int, int), k: int) -> (int, int) {
    if k == 1 {
        p
    } else {
        (root(p.0, k as nat), root(p.1, k as nat))
    }
}

/// Applies `f` to two results, the left one's error first.
pub open spec fn lift<T>(
    l: Result<T, NumericError>,
    r: Result<T, NumericError>,
    f: spec_fn(T, T) -> Result<T, NumericError>,
) -> Result<T, NumericError> {
    match l {
        Err(x) => Err(x),
        Ok(p) => match r {
            Err(y) => Err(y),
            Ok(q) => f(p, q),
        },
    }
}

/// A number of the extended line as `f64` arithmetic has it: a finite value, an infinity,
/// or not-a-number. Zero carries no sign here (it behaves as `+0.0`).
#[derive(Clone, Copy, Debug, PartialEq, Eq, Structural)]
pub enum Extended<T> {
    Finite(T),
    PosInf,
    NegInf,
    NaN,
}

/// The sign of an integer: `-1`, `0` or `1`.
pub open spec fn sgn(x: int) -> int {
    if x > 0 {
        1
    } else if x < 0 {
        -1
    } else {
        0
    }
}

/// The infinity of sign `s`; not-a-number for `s == 0`.
pub open spec fn infinity<T>(s: int) -> Extended<T> {
    if s > 0 {
        Extended::PosInf
    } else if s < 0 {
        Extended::NegInf
    } else {
        Extended::NaN
    }
}

/// The sign of an extended number; `0` for zero and for not-a-number.
pub open spec fn sign_of(x: Extended<(int, int)>) -> int {
    match x {
        Extended::Finite(p) => sgn(p.0),
        Extended::PosInf => 1,
        Extended::NegInf => -1,
        Extended::NaN => 0,
    }
}

/// The extended number `0`.
pub open spec fn zero_x() -> Extended<(int, int)> {
    Extended::Finite((0int, 1int))
}

/// The extended number `1`.
pub open spec fn one_x() -> Extended<(int, int)> {
    Extended::Finite((1int, 1int))
}

/// `x + y`: exact on fractions; an infinity absorbs a fraction; opposite infinities, or a
/// not-a-number, give not-a-number.
pub open spec fn add_x(x: Extended<(int, int)>, y: Extended<(int, int)>) -> Extended<(int, int)> {
    match (x, y) {
        (Extended::Finite(p), Extended::Finite(q)) => Extended::Finite(add_q(p, q)),
        (Extended::NaN, _) | (_, Extended::NaN) => Extended::NaN,
        (Extended::PosInf, Extended::NegInf) | (Extended::NegInf, Extended::PosInf) => Extended::NaN,
        (Extended::PosInf, _) | (_, Extended::PosInf) => Extended::PosInf,
        _ => Extended::NegInf,
    }
}

/// `x - y`, as `add_x` with `y` negated.
pub open spec fn sub_x(x: Extended<(int, int)>, y: Extended<(int, int)>) -> Extended<(int, int)> {
    match (x, y) {
        (Extended::Finite(p), Extended::Finite(q)) => Extended::Finite(sub_q(p, q)),
        (Extended::NaN, _) | (_, Extended::NaN) => Extended::NaN,
        (Extended::PosInf, Extended::PosInf) | (Extended::NegInf, Extended::NegInf) => Extended::NaN,
        (Extended::PosInf, _) | (_, Extended::NegInf) => Extended::PosInf,
        _ => Extended::NegInf,
    }
}

/// `x * y`: exact on fractions; with an infinity, the infinity of the product of the signs,
/// and not-a-number against zero.
pub open spec fn mul_x(x: Extended<(int, int)>, y: Extended<(int, int)>) -> Extended<(int, int)> {
    match (x, y) {
        (Extended::Finite(p), Extended::Finite(q)) => Extended::Finite(mul_q(p, q)),
        (Extended::NaN, _) | (_, Extended::NaN) => Extended::NaN,
        _ => infinity(sign_of(x) * sign_of(y)),
    }
}

/// `x / y`: exact on fractions with a nonzero divisor; a nonzero fraction over zero is the
/// infinity of its sign and `0 / 0` is not-a-number; a fraction over an infinity is `0`; an
/// infinity over a fraction keeps its sign times the divisor's (zero counting as positive);
/// two infinities give not-a-number.
pub open spec fn div_x(x: Extended<(int, int)>, y: Extended<(int, int)>) -> Extended<(int, int)> {
    match (x, y) {
        (Extended::Finite(p), Extended::Finite(q)) => if q.0 == 0 {
            infinity(sgn(p.0))
        } else {
            Extended::Finite(div_q(p, q))
        },
        (Extended::NaN, _) | (_, Extended::NaN) => Extended::NaN,
        (Extended::Finite(_), _) => zero_x(),
        (_, Extended::Finite(q)) => infinity(sign_of(x) * (if q.0 == 0 { 1 } else { sgn(q.0) })),
        _ => Extended::NaN,
    }
}

/// `x % y` (the remainder of truncating division, as `f64`'s `%`): exact on fractions with a
/// nonzero divisor; a fraction modulo an infinity is itself; a zero divisor, an infinite
/// dividend or a not-a-number give not-a-number.
pub open spec fn rem_x(x: Extended<(int, int)>, y: Extended<(int, int)>) -> Extended<(int, int)> {
    match (x, y) {
        (Extended::Finite(p), Extended::Finite(q)) => if q.0 == 0 {
            Extended::NaN
        } else {
            Extended::Finite(rem_q(p, q))
        },
        (Extended::Finite(p), Extended::PosInf) | (Extended::Finite(p), Extended::NegInf) => {
            Extended::Finite(p)
        },
        _ => Extended::NaN,
    }
}

/// The powers of fractions that take the general path: a nonzero exponent, a base other
/// than `0` and `1`, and no negative base under a fractional exponent.
pub open spec fn general_pow(p: (int, int), q: (int, int)) -> bool {
    q.0 != 0 && p.0 != p.1 && p.0 != 0 && !(q.1 != 1 && p.0 < 0)
}

/// `x ^ y` as `f64`'s `powf` gives it, exactly: `x ^ 0` and `1 ^ y` are `1`; otherwise a
/// not-a-number stays one; an infinite exponent gives an infinity, `0` or `1` by the size
/// of the base; an infinite base gives an infinity or `0` by the exponent's sign (with
/// `-inf` under an odd integer staying negative); a zero base gives `0` or `+inf`; a negative
/// base under a fractional exponent gives not-a-number; and otherwise `p ^ (n / k)` is the
/// integer power `n` of the `k`-th roots of `p`'s parts, `NotRational` where those roots
/// are not integers.
pub open spec fn pow_x(x: Extended<(int, int)>, y: Extended<(int, int)>) -> Result<
    Extended<(int, int)>,
    NumericError,
> {
    if y is Finite && y->Finite_0.0 == 0 {
        Ok(one_x())
    } else if x is Finite && x->Finite_0.0 == x->Finite_0.1 {
        Ok(one_x())
    } else {
        match (x, y) {
            (Extended::NaN, _) | (_, Extended::NaN) => Ok(Extended::NaN),
            (_, Extended::PosInf) => Ok(
                match x {
                    Extended::Finite(p) => if abs(p.0) > p.1 {
                        Extended::PosInf
                    } else if abs(p.0) < p.1 {
                        zero_x()
                    } else {
                        one_x()
                    },
                    _ => Extended::PosInf,
                },
            ),
            (_, Extended::NegInf) => Ok(
                match x {
                    Extended::Finite(p) => if abs(p.0) > p.1 {
                        zero_x()
                    } else if abs(p.0) < p.1 {
                        Extended::PosInf
                    } else {
                        one_x()
                    },
                    _ => zero_x(),
                },
            ),
            (Extended::PosInf, Extended::Finite(q)) => Ok(
                if q.0 > 0 {
                    Extended::PosInf
                } else {
                    zero_x()
                },
            ),
            (Extended::NegInf, Extended::Finite(q)) => Ok(
                if q.0 <= 0 {
                    zero_x()
                } else if q.1 == 1 && q.0 % 2 == 1 {
                    Extended::NegInf
                } else {
                    Extended::PosInf
                },
            ),
            (Extended::Finite(p), Extended::Finite(q)) => if p.0 == 0 {
                Ok(
                    if q.0 > 0 {
                        zero_x()
                    } else {
                        Extended::PosInf
                    },
                )
            } else if q.1 != 1 && p.0 < 0 {
                Ok(Extended::NaN)
            } else if rooted(p, q.1) {
                Ok(Extended::Finite(pow_q(root_base(p, q.1), q.0)))
            } else {
                Err(NumericError::NotRational)
            },
        }
    }
}

/// The exact value of an expression on the extended line, fractions in lowest terms, with
/// no bound on the size of integers; `NotRational` for a fractional power with no rational
/// value.
pub open spec fn value_of(e: Expr) -> Result<Extended<(int, int)>, NumericError>
    decreases e,
{
    match e {
        Expr::Val(x) => Ok(Extended::Finite((x as int, 1int))),
        Expr::Add(a, b) => lift(
            value_of(*a),
            value_of(*b),
            |x: Extended<(int, int)>, y: Extended<(int, int)>| Ok(add_x(x, y)),
        ),
        Expr::Sub(a, b) => lift(
            value_of(*a),
            value_of(*b),
            |x: Extended<(int, int)>, y: Extended<(int, int)>| Ok(sub_x(x, y)),
        ),
        Expr::Mul(a, b) => lift(
            value_of(*a),
            value_of(*b),
            |x: Extended<(int, int)>, y: Extended<(int, int)>| Ok(mul_x(x, y)),
        ),
        Expr::Div(a, b) => lift(
            value_of(*a),
            value_of(*b),
            |x: Extended<(int, int)>, y: Extended<(int, int)>| Ok(div_x(x, y)),
        ),
        Expr::Rem(a, b) => lift(
            value_of(*a),
            value_of(*b),
            |x: Extended<(int, int)>, y: Extended<(int, int)>| Ok(rem_x(x, y)),
        ),
        Expr::Exp(a, b) => lift(
            value_of(*a),
            value_of(*b),
            |x: Extended<(int, int)>, y: Extended<(int, int)>| pow_x(x, y),
        ),
    }
}

/// `lowest(n, d)` as a `Ratio` when every listed intermediate fits in `i128`.
pub open spec fn checked_lowest(n: int, d: int, ok: bool) -> Result<Ratio, NumericError> {
    if ok {
        Ok(to_ratio(lowest(n, d)))
    } else {
        Err(NumericError::ArithmeticOverflow)
    }
}

/// `add_q` on `i128` fractions: every cross product and the sum must fit.
pub open spec fn checked_add(p: Ratio, q: Ratio) -> Result<Ratio, NumericError> {
    let x = p.num * q.den;
    let y = q.num * p.den;
    let d = p.den * q.den;
    checked_lowest(x + y, d, fits(x) && fits(y) && fits(x + y) && fits(d))
}

/// `sub_q` on `i128` fractions.
pub open spec fn checked_sub(p: Ratio, q: Ratio) -> Result<Ratio, NumericError> {
    let x = p.num * q.den;
    let y = q.num * p.den;
    let d = p.den * q.den;
    checked_lowest(x - y, d, fits(x) && fits(y) && fits(x - y) && fits(d))
}

/// `mul_q` on `i128` fractions.
pub open spec fn checked_mul(p: Ratio, q: Ratio) -> Result<Ratio, NumericError> {
    let n = p.num * q.num;
    let d = p.den * q.den;
    checked_lowest(n, d, fits(n) && fits(d))
}

/// `div_q` on `i128` fractions, for a nonzero divisor.
pub open spec fn checked_div(p: Ratio, q: Ratio) -> Result<Ratio, NumericError> {
    let n = p.num * q.den;
    let d = p.den * q.num;
    if d > 0 {
        checked_lowest(n, d, fits(n) && fits(d))
    } else {
        checked_lowest(-n, -d, fits(n) && fits(d) && fits(-n) && fits(-d))
    }
}

/// `rem_q` on `i128` fractions, for a nonzero divisor.
pub open spec fn checked_rem(p: Ratio, q: Ratio) -> Result<Ratio, NumericError> {
    let x = p.num * q.den;
    let y = q.num * p.den;
    let d = p.den * q.den;
    checked_lowest(
        trunc_rem(x, y),
        d,
        fits(x) && fits(y) && fits(d) && !(x == i128::MIN && y == -1),
    )
}

/// `pow_q(b, k)` on an `i128` fraction `b`: both powers must stay within `i128::MAX` in
/// magnitude.
pub open spec fn checked_int_pow(b: (int, int), k: int) -> Result<Ratio, NumericError> {
    let n = pow(b.0, abs(k) as nat);
    let d = pow(b.1, abs(k) as nat);
    if abs(n) <= i128::MAX && abs(d) <= i128::MAX {
        Ok(to_ratio(pow_q(b, k)))
    } else {
        Err(NumericError::ArithmeticOverflow)
    }
}

/// The power `p ^ q` on `i128` fractions on the general path of `pow_x`, with the integer
/// power checked by `checked_int_pow`.
pub open spec fn checked_pow(p: Ratio, q: Ratio) -> Result<Ratio, NumericError> {
    if !rooted(p.pair(), q.den as int) {
        Err(NumericError::NotRational)
    } else {
        checked_int_pow(root_base(p.pair(), q.den as int), q.num as int)
    }
}

/// An extended number of `i128` fractions as one of mathematical integers.
pub open spec fn view_x(x: Extended<Ratio>) -> Extended<(int, int)> {
    match x {
        Extended::Finite(r) => Extended::Finite(r.pair()),
        Extended::PosInf => Extended::PosInf,
        Extended::NegInf => Extended::NegInf,
        Extended::NaN => Extended::NaN,
    }
}

/// An extended number of integer pairs read back with `i128` fractions.
pub open spec fn to_ratio_x(x: Extended<(int, int)>) -> Extended<Ratio> {
    match x {
        Extended::Finite(p) => Extended::Finite(to_ratio(p)),
        Extended::PosInf => Extended::PosInf,
        Extended::NegInf => Extended::NegInf,
        Extended::NaN => Extended::NaN,
    }
}

/// Fractions have positive denominators.
pub open spec fn wf_x(x: Extended<Ratio>) -> bool {
    x is Finite ==> x->Finite_0.den > 0
}

/// A checked fraction as an extended number.
pub open spec fn finite_result(r: Result<Ratio, NumericError>) -> Result<Extended<Ratio>, NumericError> {
    match r {
        Ok(v) => Ok(Extended::Finite(v)),
        Err(e) => Err(e),
    }
}

/// `add_x` with fractions held in `i128`.
pub open spec fn checked_add_x(x: Extended<Ratio>, y: Extended<Ratio>) -> Result<Extended<Ratio>, NumericError> {
    match (x, y) {
        (Extended::Finite(p), Extended::Finite(q)) => finite_result(checked_add(p, q)),
        _ => Ok(to_ratio_x(add_x(view_x(x), view_x(y)))),
    }
}

/// `sub_x` with fractions held in `i128`.
pub open spec fn checked_sub_x(x: Extended<Ratio>, y: Extended<Ratio>) -> Result<Extended<Ratio>, NumericError> {
    match (x, y) {
        (Extended::Finite(p), Extended::Finite(q)) => finite_result(checked_sub(p, q)),
        _ => Ok(to_ratio_x(sub_x(view_x(x), view_x(y)))),
    }
}

/// `mul_x` with fractions held in `i128`.
pub open spec fn checked_mul_x(x: Extended<Ratio>, y: Extended<Ratio>) -> Result<Extended<Ratio>, NumericError> {
    match (x, y) {
        (Extended::Finite(p), Extended::Finite(q)) => finite_result(checked_mul(p, q)),
        _ => Ok(to_ratio_x(mul_x(view_x(x), view_x(y)))),
    }
}

/// `div_x` with fractions held in `i128`.
pub open spec fn checked_div_x(x: Extended<Ratio>, y: Extended<Ratio>) -> Result<Extended<Ratio>, NumericError> {
    if x is Finite && y is Finite && y->Finite_0.num != 0 {
        finite_result(checked_div(x->Finite_0, y->Finite_0))
    } else {
        Ok(to_ratio_x(div_x(view_x(x), view_x(y))))
    }
}

/// `rem_x` with fractions held in `i128`.
pub open spec fn checked_rem_x(x: Extended<Ratio>, y: Extended<Ratio>) -> Result<Extended<Ratio>, NumericError> {
    if x is Finite && y is Finite && y->Finite_0.num != 0 {
        finite_result(checked_rem(x->Finite_0, y->Finite_0))
    } else {
        Ok(to_ratio_x(rem_x(view_x(x), view_x(y))))
    }
}

/// `pow_x` with fractions held in `i128`.
pub open spec fn checked_pow_x(x: Extended<Ratio>, y: Extended<Ratio>) -> Result<Extended<Ratio>, NumericError> {
    if x is Finite && y is Finite && general_pow(x->Finite_0.pair(), y->Finite_0.pair()) {
        finite_result(checked_pow(x->Finite_0, y->Finite_0))
    } else {
        match pow_x(view_x(x), view_x(y)) {
            Ok(v) => Ok(to_ratio_x(v)),
            Err(e) => Err(e),
        }
    }
}

/// What `Expr::exact` computes: `value_of` with every integer, intermediates included,
/// held in `i128`; where one does not fit the result is `ArithmeticOverflow`.
/// Operands are evaluated left before right, and the first error is the one reported.
pub open spec fn evaluation(e: Expr) -> Result<Extended<Ratio>, NumericError>
    decreases e,
{
    match e {
        Expr::Val(x) => Ok(Extended::Finite(Ratio { num: x, den: 1 })),
        Expr::Add(a, b) => lift(evaluation(*a), evaluation(*b), |x: Extended<Ratio>, y: Extended<Ratio>| checked_add_x(x, y)),
        Expr::Sub(a, b) => lift(evaluation(*a), evaluation(*b), |x: Extended<Ratio>, y: Extended<Ratio>| checked_sub_x(x, y)),
        Expr::Mul(a, b) => lift(evaluation(*a), evaluation(*b), |x: Extended<Ratio>, y: Extended<Ratio>| checked_mul_x(x, y)),
        Expr::Div(a, b) => lift(evaluation(*a), evaluation(*b), |x: Extended<Ratio>, y: Extended<Ratio>| checked_div_x(x, y)),
        Expr::Rem(a, b) => lift(evaluation(*a), evaluation(*b), |x: Extended<Ratio>, y: Extended<Ratio>| checked_rem_x(x, y)),
        Expr::Exp(a, b) => lift(evaluation(*a), evaluation(*b), |x: Extended<Ratio>, y: Extended<Ratio>| checked_pow_x(x, y)),
    }
}

/// `pow(b, e + 1) == b * pow(b, e)`.
proof fn lemma_pow_step(b: int, e: nat)
    ensures
        pow(b, e + 1) == b * pow(b, e),
{
    reveal(pow);
}

/// With `|b| >= 1` the magnitude of `b`'s powers never shrinks.
pub(crate) proof fn lemma_pow_abs_grows(b: int, e1: nat, e2: nat)
    requires
        abs(b) >= 1,
        e1 <= e2,
    ensures
        abs(pow(b, e1)) <= abs(pow(b, e2)),
    decreases e2,
{
    if e1 < e2 {
        let e = (e2 - 1) as nat;
        lemma_pow_abs_grows(b, e1, e);
        lemma_pow_step(b, e);
        let x = pow(b, e);
        assert(abs(b * x) >= abs(x)) by (nonlinear_arith)
            requires
                abs(b) >= 1,
        ;
    }
}

/// Powers of `-1` alternate in sign.
proof fn lemma_pow_minus_one(e: nat)
    ensures
        pow(-1, e) == (if e % 2 == 0 { 1int } else { -1int }),
    decreases e,
{
    reveal(pow);
    if e > 0 {
        lemma_pow_minus_one((e - 1) as nat);
    }
}

/// `b` to the power `m`, or `None` when its magnitude exceeds `i128::MAX`.
fn checked_ipow(b: i128, m: u128) -> (r: Option<i128>)
    ensures
        r == (if abs(pow(b as int, m as nat)) <= i128::MAX {
            Some(pow(b as int, m as nat) as i128)
        } else {
            None::<i128>
        }),
{
    proof {
        reveal(pow);
    }
    if b == 0 {
        proof {
            if m > 0 {
                lemma_pow_step(0, (m - 1) as nat);
            }
        }
        return if m == 0 { Some(1) } else { Some(0) };
    }
    if b == 1 {
        proof {
            vstd::arithmetic::power::lemma1_pow(m as nat);
        }
        return Some(1);
    }
    if b == -1 {
        proof {
            lemma_pow_minus_one(m as nat);
        }
        return if m % 2 == 0 { Some(1) } else { Some(-1) };
    }
    let mut acc: i128 = 1;
    let mut i: u128 = 0;
    while i < m
        invariant
            i <= m,
            abs(b as int) >= 2,
            acc as int == pow(b as int, i as nat),
            abs(acc as int) <= i128::MAX,
        decreases m - i,
    {
        proof {
            lemma_pow_step(b as int, i as nat);
            lemma_pow_abs_grows(b as int, (i + 1) as nat, m as nat);
        }
        match acc.checked_mul(b) {
            None => {
                return None;
            },
            Some(v) => {
                if v == i128::MIN {
                    return None;
                }
                acc = v;
            },
        }
        i = i + 1;
    }
    Some(acc)
}

pub(crate) proof fn lemma_positive_product(a: int, b: int)
    requires
        a > 0,
        b > 0,
    ensures
        a * b > 0,
{
    assert(a * b > 0) by (nonlinear_arith)
        requires
            a > 0,
            b > 0,
    ;
}

pub(crate) proof fn lemma_nonzero_product(a: int, b: int)
    requires
        a != 0,
        b != 0,
    ensures
        a * b != 0,
{
    assert(a * b != 0) by (nonlinear_arith)
        requires
            a != 0,
            b != 0,
    ;
}

/// `pow_q(b, k)` as a `Ratio`, or `ArithmeticOverflow`.
fn int_pow(b: Ratio, k: i128) -> (r: Result<Ratio, NumericError>)
    requires
        b.den > 0,
        !(k < 0 && b.num == 0),
    ensures
        r == checked_int_pow(b.pair(), k as int),
        r is Ok ==> r->Ok_0.den > 0,
{
    let m: u128 = if k >= 0 { k as u128 } else { (-(k + 1)) as u128 + 1 };
    assert(m as int == abs(k as int));
    let (n, d) = match (checked_ipow(b.num, m), checked_ipow(b.den, m)) {
        (Some(n), Some(d)) => (n, d),
        _ => return Err(NumericError::ArithmeticOverflow),
    };
    proof {
        vstd::arithmetic::power::lemma_pow_positive(b.den as int, m as nat);
        if b.num != 0 {
            lemma_pow_abs_grows(b.num as int, 0, m as nat);
            vstd::arithmetic::power::lemma_pow0(b.num as int);
        }
    }
    if k >= 0 {
        Ok(lowest_terms(n, d))
    } else if n > 0 {
        Ok(lowest_terms(d, n))
    } else {
        Ok(lowest_terms(-d, -n))
    }
}

/// Powers of non-negative integers grow with the base; strictly for `e >= 1`.
pub(crate) proof fn lemma_pow_base_grows(a: int, b: int, e: nat)
    requires
        0 <= a <= b,
    ensures
        0 <= pow(a, e) <= pow(b, e),
        e >= 1 && a < b ==> pow(a, e) < pow(b, e),
    decreases e,
{
    reveal(pow);
    if e > 0 {
        let e1 = (e - 1) as nat;
        lemma_pow_base_grows(a, b, e1);
        let x = pow(a, e1);
        let y = pow(b, e1);
        lemma_pow_step(a, e1);
        lemma_pow_step(b, e1);
        assert(0 <= a * x <= b * y) by (nonlinear_arith)
            requires
                0 <= a <= b,
                0 <= x <= y,
        ;
        if a < b {
            if e1 == 0 {
                vstd::arithmetic::power::lemma_pow0(a);
                vstd::arithmetic::power::lemma_pow0(b);
            } else {
                vstd::arithmetic::power::lemma_pow_positive(b, e1);
            }
            assert(a * x < b * y) by (nonlinear_arith)
                requires
                    0 <= a < b,
                    0 <= x <= y,
                    y >= 1,
                    e1 == 0 ==> x == 1 && y == 1,
                    e1 > 0 ==> x < y || a < b,
            ;
        }
    }
}

/// A non-negative `k`-th root is unique.
pub(crate) proof fn lemma_root_unique(r: int, x: int, k: nat)
    requires
        k >= 1,
        is_root(r, x, k),
    ensures
        has_root(x, k),
        root(x, k) == r,
{
    let s = root(x, k);
    assert(is_root(s, x, k));
    if s < r {
        lemma_pow_base_grows(s, r, k);
    } else if r < s {
        lemma_pow_base_grows(r, s, k);
    }
}

/// The root of a non-negative number lies between `0` and the number, and is zero only for
/// zero.
pub(crate) proof fn lemma_root_bounds(x: int, k: nat)
    requires
        k >= 1,
        has_root(x, k),
    ensures
        is_root(root(x, k), x, k),
        0 <= root(x, k) <= x,
        root(x, k) == 0 <==> x == 0,
{
    let r = root(x, k);
    assert(is_root(r, x, k));
    if r >= 1 {
        lemma_pow_abs_grows(r, 1, k);
        vstd::arithmetic::power::lemma_pow1(r);
        vstd::arithmetic::power::lemma_pow_positive(r, k);
    } else {
        vstd::arithmetic::power::lemma0_pow(k);
    }
}

/// The base of a power with a positive denominator keeps a positive denominator, is no
/// larger than the fraction, and is zero only where the fraction is.
pub proof fn lemma_root_base(p: (int, int), k: int)
    requires
        p.1 > 0,
        k >= 1,
        rooted(p, k),
    ensures
        root_base(p, k).1 > 0,
        root_base(p, k).1 <= p.1,
        abs(root_base(p, k).0) <= abs(p.0),
        root_base(p, k).0 == 0 <==> p.0 == 0,
{
    if k != 1 {
        lemma_root_bounds(p.0, k as nat);
        lemma_root_bounds(p.1, k as nat);
    }
}

/// The non-negative integer `k`-th root of `x >= 0`, if there is one.
fn exact_root(x: i128, k: u128) -> (r: Option<i128>)
    requires
        x >= 0,
        k >= 1,
    ensures
        r == (if has_root(x as int, k as nat) {
            Some(root(x as int, k as nat) as i128)
        } else {
            None::<i128>
        }),
        r is Some ==> r->Some_0 >= 0,
{
    let mut lo: i128 = 0;
    let mut hi: i128 = x;
    proof {
        assert forall|r: int| r > x implies #[trigger] pow(r, k as nat) > x by {
            lemma_pow_abs_grows(r, 1, k as nat);
            vstd::arithmetic::power::lemma_pow1(r);
            vstd::arithmetic::power::lemma_pow_positive(r, k as nat);
        }
    }
    while lo <= hi
        invariant
            0 <= lo,
            hi <= x,
            lo <= hi + 1,
            k >= 1,
            forall|r: int| 0 <= r < lo ==> #[trigger] pow(r, k as nat) < x,
            forall|r: int| r > hi ==> #[trigger] pow(r, k as nat) > x,
        decreases hi + 1 - lo,
    {
        let mid: i128 = lo + (hi - lo) / 2;
        assert(lo <= mid <= hi);
        proof {
            if mid >= 1 {
                lemma_pow_abs_grows(mid as int, 1, k as nat);
                vstd::arithmetic::power::lemma_pow1(mid as int);
                vstd::arithmetic::power::lemma_pow_positive(mid as int, k as nat);
            }
        }
        match checked_ipow(mid, k) {
            Some(v) => {
                if v == x {
                    proof {
                        lemma_root_unique(mid as int, x as int, k as nat);
                    }
                    return Some(mid);
                } else if v < x {
                    proof {
                        assert forall|r: int| 0 <= r < mid + 1 implies #[trigger] pow(r, k as nat) < x by {
                            lemma_pow_base_grows(r, mid as int, k as nat);
                        }
                    }
                    lo = mid + 1;
                } else {
                    proof {
                        assert forall|r: int| r > mid - 1 implies #[trigger] pow(r, k as nat) > x by {
                            lemma_pow_base_grows(mid as int, r, k as nat);
                        }
                    }
                    hi = mid - 1;
                }
            },
            None => {
                proof {
                    lemma_pow_base_grows(0, mid as int, k as nat);
                    assert forall|r: int| r > mid - 1 implies #[trigger] pow(r, k as nat) > x by {
                        lemma_pow_base_grows(mid as int, r, k as nat);
                    }
                }
                hi = mid - 1;
            },
        }
    }
    proof {
        if has_root(x as int, k as nat) {
            let r = choose|r: int| is_root(r, x as int, k as nat);
            assert(pow(r, k as nat) == x);
        }
    }
    None
}

/// `n / d` in lowest terms.
fn lowest_terms(n: i128, d: i128) -> (r: Ratio)
    requires
        d > 0,
    ensures
        r.pair() == lowest(n as int, d as int),
        r.den > 0,
{
    let s = gcd(n, d);
    proof {
        lemma_gcd_bounds(n as int, d as int);
    }
    let g: i128 = if s < 0 { -s } else { s };
    proof {
        crate::utils::lemma_exact_quotient(n as int, g as int);
        crate::utils::lemma_exact_quotient(d as int, g as int);
        assert((d as int / g as int) > 0) by (nonlinear_arith)
            requires
                (d as int / g as int) * g == d,
                g > 0,
                d > 0,
        ;
    }
    Ratio { num: n / g, den: d / g }
}

impl Ratio {
    /// Exact sum, `checked_add`.
    pub fn add_exact(self, q: Ratio) -> (r: Result<Ratio, NumericError>)
        requires
            self.den > 0,
            q.den > 0,
        ensures
            r == checked_add(self, q),
            r is Ok ==> r->Ok_0.den > 0,
    {
        let (x, y, d) = match (self.num.checked_mul(q.den), q.num.checked_mul(self.den), self.den.checked_mul(q.den)) {
            (Some(x), Some(y), Some(d)) => (x, y, d),
            _ => return Err(NumericError::ArithmeticOverflow),
        };
        proof {
            lemma_positive_product(self.den as int, q.den as int);
        }
        match x.checked_add(y) {
            Some(n) => Ok(lowest_terms(n, d)),
            None => Err(NumericError::ArithmeticOverflow),
        }
    }

    /// Exact difference, `checked_sub`.
    pub fn sub_exact(self, q: Ratio) -> (r: Result<Ratio, NumericError>)
        requires
            self.den > 0,
            q.den > 0,
        ensures
            r == checked_sub(self, q),
            r is Ok ==> r->Ok_0.den > 0,
    {
        let (x, y, d) = match (self.num.checked_mul(q.den), q.num.checked_mul(self.den), self.den.checked_mul(q.den)) {
            (Some(x), Some(y), Some(d)) => (x, y, d),
            _ => return Err(NumericError::ArithmeticOverflow),
        };
        proof {
            lemma_positive_product(self.den as int, q.den as int);
        }
        match x.checked_sub(y) {
            Some(n) => Ok(lowest_terms(n, d)),
            None => Err(NumericError::ArithmeticOverflow),
        }
    }

    /// Exact product, `checked_mul`.
    pub fn mul_exact(self, q: Ratio) -> (r: Result<Ratio, NumericError>)
        requires
            self.den > 0,
            q.den > 0,
        ensures
            r == checked_mul(self, q),
            r is Ok ==> r->Ok_0.den > 0,
    {
        let (n, d) = match (self.num.checked_mul(q.num), self.den.checked_mul(q.den)) {
            (Some(n), Some(d)) => (n, d),
            _ => return Err(NumericError::ArithmeticOverflow),
        };
        proof {
            lemma_positive_product(self.den as int, q.den as int);
        }
        Ok(lowest_terms(n, d))
    }

    /// Exact quotient, `checked_div`.
    pub fn div_exact(self, q: Ratio) -> (r: Result<Ratio, NumericError>)
        requires
            self.den > 0,
            q.den > 0,
            q.num != 0,
        ensures
            r == checked_div(self, q),
            r is Ok ==> r->Ok_0.den > 0,
    {
        let (n, d) = match (self.num.checked_mul(q.den), self.den.checked_mul(q.num)) {
            (Some(n), Some(d)) => (n, d),
            _ => return Err(NumericError::ArithmeticOverflow),
        };
        proof {
            lemma_nonzero_product(self.den as int, q.num as int);
        }
        if d > 0 {
            Ok(lowest_terms(n, d))
        } else if n == i128::MIN || d == i128::MIN {
            Err(NumericError::ArithmeticOverflow)
        } else {
            Ok(lowest_terms(-n, -d))
        }
    }

    /// Remainder of truncating division, `checked_rem`.
    pub fn rem_exact(self, q: Ratio) -> (r: Result<Ratio, NumericError>)
        requires
            self.den > 0,
            q.den > 0,
            q.num != 0,
        ensures
            r == checked_rem(self, q),
            r is Ok ==> r->Ok_0.den > 0,
    {
        let (x, y, d) = match (self.num.checked_mul(q.den), q.num.checked_mul(self.den), self.den.checked_mul(q.den)) {
            (Some(x), Some(y), Some(d)) => (x, y, d),
            _ => return Err(NumericError::ArithmeticOverflow),
        };
        proof {
            lemma_positive_product(self.den as int, q.den as int);
            lemma_nonzero_product(q.num as int, self.den as int);
        }
        if x == i128::MIN && y == -1 {
            return Err(NumericError::ArithmeticOverflow);
        }
        Ok(lowest_terms(x % y, d))
    }

    /// Exact power on the general path, `checked_pow`: a fractional exponent `n / k` takes
    /// exact `k`-th roots first.
    pub fn pow_exact(self, q: Ratio) -> (r: Result<Ratio, NumericError>)
        requires
            self.den > 0,
            q.den > 0,
            general_pow(self.pair(), q.pair()),
        ensures
            r == checked_pow(self, q),
            r is Ok ==> r->Ok_0.den > 0,
    {
        let base = if q.den == 1 {
            self
        } else {
            match (exact_root(self.num, q.den as u128), exact_root(self.den, q.den as u128)) {
                (Some(a), Some(b)) => {
                    proof {
                        lemma_root_bounds(self.num as int, q.den as nat);
                        lemma_root_bounds(self.den as int, q.den as nat);
                    }
                    Ratio { num: a, den: b }
                },
                _ => return Err(NumericError::NotRational),
            }
        };
        assert(base.pair() == root_base(self.pair(), q.den as int));
        int_pow(base, q.num)
    }
}

/// A checked fraction as an extended number.
fn finite(r: Result<Ratio, NumericError>) -> (x: Result<Extended<Ratio>, NumericError>)
    ensures
        x == finite_result(r),
{
    match r {
        Ok(v) => Ok(Extended::Finite(v)),
        Err(e) => Err(e),
    }
}

/// The sign of an extended number.
fn sign_x(x: Extended<Ratio>) -> (s: i8)
    ensures
        s as int == sign_of(view_x(x)),
        -1 <= s <= 1,
{
    match x {
        Extended::Finite(p) => if p.num > 0 {
            1
        } else if p.num < 0 {
            -1
        } else {
            0
        },
        Extended::PosInf => 1,
        Extended::NegInf => -1,
        Extended::NaN => 0,
    }
}

/// The infinity of sign `s`, not-a-number for `0`.
fn infinity_x(s: i8) -> (r: Extended<Ratio>)
    ensures
        r == to_ratio_x(infinity(s as int)),
{
    if s > 0 {
        Extended::PosInf
    } else if s < 0 {
        Extended::NegInf
    } else {
        Extended::NaN
    }
}

fn zero_ratio() -> (r: Extended<Ratio>)
    ensures
        r == to_ratio_x(zero_x()),
{
    Extended::Finite(Ratio { num: 0, den: 1 })
}

fn one_ratio() -> (r: Extended<Ratio>)
    ensures
        r == to_ratio_x(one_x()),
{
    Extended::Finite(Ratio { num: 1, den: 1 })
}

/// `checked_add_x`.
fn add_x_exec(x: Extended<Ratio>, y: Extended<Ratio>) -> (r: Result<Extended<Ratio>, NumericError>)
    requires
        wf_x(x),
        wf_x(y),
    ensures
        r == checked_add_x(x, y),
        r is Ok ==> wf_x(r->Ok_0),
{
    match (x, y) {
        (Extended::Finite(p), Extended::Finite(q)) => finite(p.add_exact(q)),
        (Extended::NaN, _) | (_, Extended::NaN) => Ok(Extended::NaN),
        (Extended::PosInf, Extended::NegInf) | (Extended::NegInf, Extended::PosInf) => Ok(Extended::NaN),
        (Extended::PosInf, _) | (_, Extended::PosInf) => Ok(Extended::PosInf),
        _ => Ok(Extended::NegInf),
    }
}

/// `checked_sub_x`.
fn sub_x_exec(x: Extended<Ratio>, y: Extended<Ratio>) -> (r: Result<Extended<Ratio>, NumericError>)
    requires
        wf_x(x),
        wf_x(y),
    ensures
        r == checked_sub_x(x, y),
        r is Ok ==> wf_x(r->Ok_0),
{
    match (x, y) {
        (Extended::Finite(p), Extended::Finite(q)) => finite(p.sub_exact(q)),
        (Extended::NaN, _) | (_, Extended::NaN) => Ok(Extended::NaN),
        (Extended::PosInf, Extended::PosInf) | (Extended::NegInf, Extended::NegInf) => Ok(Extended::NaN),
        (Extended::PosInf, _) | (_, Extended::NegInf) => Ok(Extended::PosInf),
        _ => Ok(Extended::NegInf),
    }
}

/// `checked_mul_x`.
fn mul_x_exec(x: Extended<Ratio>, y: Extended<Ratio>) -> (r: Result<Extended<Ratio>, NumericError>)
    requires
        wf_x(x),
        wf_x(y),
    ensures
        r == checked_mul_x(x, y),
        r is Ok ==> wf_x(r->Ok_0),
{
    match (x, y) {
        (Extended::Finite(p), Extended::Finite(q)) => finite(p.mul_exact(q)),
        (Extended::NaN, _) | (_, Extended::NaN) => Ok(Extended::NaN),
        _ => {
            let a = sign_x(x);
            let b = sign_x(y);
            assert(-1 <= a * b <= 1) by (nonlinear_arith)
                requires
                    -1 <= a <= 1,
                    -1 <= b <= 1,
            ;
            Ok(infinity_x(a * b))
        },
    }
}

/// `checked_div_x`.
fn div_x_exec(x: Extended<Ratio>, y: Extended<Ratio>) -> (r: Result<Extended<Ratio>, NumericError>)
    requires
        wf_x(x),
        wf_x(y),
    ensures
        r == checked_div_x(x, y),
        r is Ok ==> wf_x(r->Ok_0),
{
    match (x, y) {
        (Extended::Finite(p), Extended::Finite(q)) => if q.num == 0 {
            Ok(infinity_x(sign_x(x)))
        } else {
            finite(p.div_exact(q))
        },
        (Extended::NaN, _) | (_, Extended::NaN) => Ok(Extended::NaN),
        (Extended::Finite(_), _) => Ok(zero_ratio()),
        (_, Extended::Finite(q)) => {
            let s: i8 = if q.num < 0 { -1 } else { 1 };
            let a = sign_x(x);
            assert(-1 <= a * s <= 1) by (nonlinear_arith)
                requires
                    -1 <= a <= 1,
                    -1 <= s <= 1,
            ;
            Ok(infinity_x(a * s))
        },
        _ => Ok(Extended::NaN),
    }
}

/// `checked_rem_x`.
fn rem_x_exec(x: Extended<Ratio>, y: Extended<Ratio>) -> (r: Result<Extended<Ratio>, NumericError>)
    requires
        wf_x(x),
        wf_x(y),
    ensures
        r == checked_rem_x(x, y),
        r is Ok ==> wf_x(r->Ok_0),
{
    match (x, y) {
        (Extended::Finite(p), Extended::Finite(q)) => if q.num == 0 {
            Ok(Extended::NaN)
        } else {
            finite(p.rem_exact(q))
        },
        (Extended::Finite(p), Extended::PosInf) | (Extended::Finite(p), Extended::NegInf) => Ok(
            Extended::Finite(p),
        ),
        _ => Ok(Extended::NaN),
    }
}

/// `checked_pow_x`.
fn pow_x_exec(x: Extended<Ratio>, y: Extended<Ratio>) -> (r: Result<Extended<Ratio>, NumericError>)
    requires
        wf_x(x),
        wf_x(y),
    ensures
        r == checked_pow_x(x, y),
        r is Ok ==> wf_x(r->Ok_0),
{
    if let Extended::Finite(q) = y {
        if q.num == 0 {
            return Ok(one_ratio());
        }
    }
    if let Extended::Finite(p) = x {
        if p.num == p.den {
            return Ok(one_ratio());
        }
    }
    match (x, y) {
        (Extended::NaN, _) | (_, Extended::NaN) => Ok(Extended::NaN),
        (_, Extended::PosInf) => Ok(
            match x {
                Extended::Finite(p) => if p.num > p.den || p.num < -p.den {
                    Extended::PosInf
                } else if -p.den < p.num && p.num < p.den {
                    zero_ratio()
                } else {
                    one_ratio()
                },
                _ => Extended::PosInf,
            },
        ),
        (_, Extended::NegInf) => Ok(
            match x {
                Extended::Finite(p) => if p.num > p.den || p.num < -p.den {
                    zero_ratio()
                } else if -p.den < p.num && p.num < p.den {
                    Extended::PosInf
                } else {
                    one_ratio()
                },
                _ => zero_ratio(),
            },
        ),
        (Extended::PosInf, Extended::Finite(q)) => Ok(
            if q.num > 0 {
                Extended::PosInf
            } else {
                zero_ratio()
            },
        ),
        (Extended::NegInf, Extended::Finite(q)) => Ok(
            if q.num <= 0 {
                zero_ratio()
            } else if q.den == 1 && q.num % 2 == 1 {
                Extended::NegInf
            } else {
                Extended::PosInf
            },
        ),
        (Extended::Finite(p), Extended::Finite(q)) => if p.num == 0 {
            Ok(
                if q.num > 0 {
                    zero_ratio()
                } else {
                    Extended::PosInf
                },
            )
        } else if q.den != 1 && p.num < 0 {
            Ok(Extended::NaN)
        } else {
            finite(p.pow_exact(q))
        },
    }
}

impl Expr {
    /// The exact value of the expression on the extended line (`evaluation`): a fraction in
    /// lowest terms with a positive denominator, an infinity or not-a-number, computed with
    /// checked `i128` arithmetic.
    pub fn exact(&self) -> (r: Result<Extended<Ratio>, NumericError>)
        ensures
            r == evaluation(*self),
            r is Ok ==> wf_x(r->Ok_0),
        decreases self,
    {
        match self {
            Expr::Val(x) => Ok(Extended::Finite(Ratio { num: *x, den: 1 })),
            Expr::Add(a, b) => match a.exact() {
                Err(x) => Err(x),
                Ok(p) => match b.exact() {
                    Err(y) => Err(y),
                    Ok(q) => add_x_exec(p, q),
                },
            },
            Expr::Sub(a, b) => match a.exact() {
                Err(x) => Err(x),
                Ok(p) => match b.exact() {
                    Err(y) => Err(y),
                    Ok(q) => sub_x_exec(p, q),
                },
            },
            Expr::Mul(a, b) => match a.exact() {
                Err(x) => Err(x),
                Ok(p) => match b.exact() {
                    Err(y) => Err(y),
                    Ok(q) => mul_x_exec(p, q),
                },
            },
            Expr::Div(a, b) => match a.exact() {
                Err(x) => Err(x),
                Ok(p) => match b.exact() {
                    Err(y) => Err(y),
                    Ok(q) => div_x_exec(p, q),
                },
            },
            Expr::Rem(a, b) => match a.exact() {
                Err(x) => Err(x),
                Ok(p) => match b.exact() {
                    Err(y) => Err(y),
                    Ok(q) => rem_x_exec(p, q),
                },
            },
            Expr::Exp(a, b) => match a.exact() {
                Err(x) => Err(x),
                Ok(p) => match b.exact() {
                    Err(y) => Err(y),
                    Ok(q) => pow_x_exec(p, q),
                },
            },
        }
    }
}

/// Two evaluations are `==`: both produced a value, the same one, and not not-a-number.
pub open spec fn same_x(a: Result<Extended<Ratio>, NumericError>, b: Result<Extended<Ratio>, NumericError>) -> bool {
    a is Ok && a == b && a->Ok_0 != Extended::<Ratio>::NaN
}

/// Two expressions are equal when their exact values are the same fraction or the same
/// infinity, whatever the shape of the trees. Not-a-number equals nothing, itself included,
/// and so does an expression whose value cannot be had (an overflow, an irrational power).
impl PartialEq for Expr {
    fn eq(&self, other: &Expr) -> (r: bool) {
        match (self.exact(), other.exact()) {
            (Ok(Extended::Finite(p)), Ok(Extended::Finite(q))) => p.num == q.num && p.den == q.den,
            (Ok(Extended::PosInf), Ok(Extended::PosInf)) => true,
            (Ok(Extended::NegInf), Ok(Extended::NegInf)) => true,
            _ => false,
        }
    }
}

impl vstd::std_specs::cmp::PartialEqSpecImpl for Expr {
    open spec fn obeys_eq_spec() -> bool {
        true
    }

    open spec fn eq_spec(&self, other: &Expr) -> bool {
        same_x(evaluation(*self), evaluation(*other))
    }
}

/// The order of two integers.
pub open spec fn order(x: int, y: int) -> core::cmp::Ordering {
    if x < y {
        core::cmp::Ordering::Less
    } else if x > y {
        core::cmp::Ordering::Greater
    } else {
        core::cmp::Ordering::Equal
    }
}

/// Floor division by a positive divisor stays within the dividend's range.
proof fn lemma_floor_div_fits(a: int, b: int)
    requires
        b >= 1,
        fits(a),
    ensures
        fits(a / b),
{
    vstd::arithmetic::div_mod::lemma_fundamental_div_mod(a, b);
    let q = a / b;
    let r = a % b;
    assert(a >= 0 ==> 0 <= q <= a) by (nonlinear_arith)
        requires
            a == b * q + r,
            0 <= r < b,
            b >= 1,
    ;
    assert(a < 0 ==> a <= q < 0) by (nonlinear_arith)
        requires
            a == b * q + r,
            0 <= r < b,
            b >= 1,
    ;
}

/// The order of the fractions `a / b` and `c / d` (`b, d > 0`), found without overflow by
/// comparing integer parts and then, reversed, the reciprocals of the fractional parts.
fn compare_fractions(a: i128, b: i128, c: i128, d: i128) -> (r: core::cmp::Ordering)
    requires
        b > 0,
        d > 0,
    ensures
        r == order(a * d, c * b),
    decreases b + d,
{
    proof {
        lemma_floor_div_fits(a as int, b as int);
        lemma_floor_div_fits(c as int, d as int);
    }
    let fa = a.checked_div_euclid(b).unwrap();
    let ra = a.checked_rem_euclid(b).unwrap();
    let fc = c.checked_div_euclid(d).unwrap();
    let rc = c.checked_rem_euclid(d).unwrap();
    proof {
        vstd::arithmetic::div_mod::lemma_fundamental_div_mod(a as int, b as int);
        vstd::arithmetic::div_mod::lemma_fundamental_div_mod(c as int, d as int);
        let (ai, bi, ci, di) = (a as int, b as int, c as int, d as int);
        let (fai, rai, fci, rci) = (fa as int, ra as int, fc as int, rc as int);
        assert(ai * di - ci * bi == (fai - fci) * (bi * di) + (rai * di - rci * bi))
            by (nonlinear_arith)
            requires
                ai == bi * fai + rai,
                ci == di * fci + rci,
        ;
        assert(0 <= rai * di < bi * di) by (nonlinear_arith)
            requires
                0 <= rai < bi,
                di > 0,
        ;
        assert(0 <= rci * bi < bi * di) by (nonlinear_arith)
            requires
                0 <= rci < di,
                bi > 0,
        ;
        if fai < fci {
            assert((fai - fci) * (bi * di) <= -(bi * di)) by (nonlinear_arith)
                requires
                    fai - fci <= -1,
                    bi * di > 0,
            ;
        } else if fai > fci {
            assert((fai - fci) * (bi * di) >= bi * di) by (nonlinear_arith)
                requires
                    fai - fci >= 1,
                    bi * di > 0,
            ;
        } else {
            assert((fai - fci) * (bi * di) == 0) by (nonlinear_arith)
                requires
                    fai == fci,
            ;
        }
        assert(di * rai - bi * rci == rai * di - rci * bi) by (nonlinear_arith);
        assert(rai == 0 ==> rai * di == 0) by (nonlinear_arith);
        assert(rci == 0 ==> rci * bi == 0) by (nonlinear_arith);
        assert(rai > 0 ==> rai * di > 0) by (nonlinear_arith)
            requires
                di > 0,
        ;
        assert(rci > 0 ==> rci * bi > 0) by (nonlinear_arith)
            requires
                bi > 0,
        ;
    }
    if fa < fc {
        core::cmp::Ordering::Less
    } else if fa > fc {
        core::cmp::Ordering::Greater
    } else if ra == 0 {
        if rc == 0 {
            core::cmp::Ordering::Equal
        } else {
                core::cmp::Ordering::Less
        }
    } else if rc == 0 {
        core::cmp::Ordering::Greater
    } else {
        compare_fractions(d, rc, b, ra)
    }
}

/// The order of extended numbers: `-inf` below every fraction, `+inf` above, fractions by
/// value; not-a-number is neither below nor above anything and so compares `Equal`.
pub open spec fn order_x(x: Extended<Ratio>, y: Extended<Ratio>) -> core::cmp::Ordering {
    match (x, y) {
        (Extended::NaN, _) | (_, Extended::NaN) => core::cmp::Ordering::Equal,
        (Extended::Finite(p), Extended::Finite(q)) => order(p.num * q.den, q.num * p.den),
        (Extended::PosInf, Extended::PosInf) | (Extended::NegInf, Extended::NegInf) => core::cmp::Ordering::Equal,
        (Extended::NegInf, _) | (_, Extended::PosInf) => core::cmp::Ordering::Less,
        _ => core::cmp::Ordering::Greater,
    }
}

/// Expressions are ordered by their exact values (`order_x`); they are unordered only when
/// a value cannot be had (an overflow, an irrational power).
impl PartialOrd for Expr {
    fn partial_cmp(&self, other: &Expr) -> (r: Option<core::cmp::Ordering>) {
        match (self.exact(), other.exact()) {
            (Ok(x), Ok(y)) => Some(
                match (x, y) {
                    (Extended::NaN, _) | (_, Extended::NaN) => core::cmp::Ordering::Equal,
                    (Extended::Finite(p), Extended::Finite(q)) => compare_fractions(p.num, p.den, q.num, q.den),
                    (Extended::PosInf, Extended::PosInf) | (Extended::NegInf, Extended::NegInf) => core::cmp::Ordering::Equal,
                    (Extended::NegInf, _) | (_, Extended::PosInf) => core::cmp::Ordering::Less,
                    _ => core::cmp::Ordering::Greater,
                },
            ),
            _ => None,
        }
    }
}

impl vstd::std_specs::cmp::PartialOrdSpecImpl for Expr {
    open spec fn obeys_partial_cmp_spec() -> bool {
        true
    }

    open spec fn partial_cmp_spec(&self, other: &Expr) -> Option<core::cmp::Ordering> {
        match (evaluation(*self), evaluation(*other)) {
            (Ok(x), Ok(y)) => Some(order_x(x, y)),
            _ => None,
        }
    }
}

} // verus!
