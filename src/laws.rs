//! Laws relating the operators, the literal ratio and the exact value of expressions.
use vstd::prelude::*;
use vstd::arithmetic::power::pow;
use vstd::std_specs::cmp::PartialEqSpec;
use crate::expression::{power, product, quotient, reduced_ratio, Expr};
use crate::utils::{abs, gcd_nat};
use crate::value::{
    add_q, add_x, canonical, checked_add_x, checked_div_x, checked_mul_x, checked_pow_x,
    checked_rem_x, checked_sub_x, div_q, div_x, evaluation, fits, general_pow, lemma_lowest,
    lemma_lowest_canonical, lemma_nonzero_product, lemma_positive_product, lemma_pow_abs_grows,
    lemma_root_base, lowest, mul_q, mul_x, pow_q, pow_x, rem_q, rem_x, root_base, rooted, sub_q,
    sub_x, to_ratio, to_ratio_x, value_of, view_x, wf_x, Extended, NumericError, Ratio,
};

verus! {

/// A value on the extended line whose fraction, if any, is canonical.
pub open spec fn canonical_x(x: Extended<(int, int)>) -> bool {
    x is Finite ==> canonical(x->Finite_0)
}

/// `gcd(0, d) == d` and `gcd(x, 1) == 1`.
proof fn lemma_gcd_small(x: nat, d: nat)
    requires
        d > 0,
    ensures
        gcd_nat(0, d) == d,
        gcd_nat(x, 1) == 1,
{
    reveal_with_fuel(gcd_nat, 3);
    assert(0nat % d == 0);
    assert(x % 1 == 0);
}

/// `0` and `1` are canonical.
proof fn lemma_small_canonical()
    ensures
        canonical((0int, 1int)),
        canonical((1int, 1int)),
{
    lemma_gcd_small(0, 1);
    lemma_gcd_small(1, 1);
    assert(abs(0) == 0);
    assert(abs(1) == 1);
}

/// The fraction of a general power is canonical.
proof fn lemma_pow_canonical(p: (int, int), q: (int, int))
    requires
        canonical(p),
        general_pow(p, q),
        rooted(p, q.1),
        q.1 >= 1,
    ensures
        canonical(pow_q(root_base(p, q.1), q.0)),
{
    lemma_root_base(p, q.1);
    let b = root_base(p, q.1);
    let k = q.0;
    let m = abs(k) as nat;
    let n = pow(b.0, m);
    let d = pow(b.1, m);
    vstd::arithmetic::power::lemma_pow_positive(b.1, m);
    if k >= 0 {
        lemma_lowest(n, d);
    } else {
        lemma_pow_abs_grows(b.0, 0, m);
        vstd::arithmetic::power::lemma_pow0(b.0);
        if n > 0 {
            lemma_lowest(d, n);
        } else {
            lemma_lowest(-d, -n);
        }
    }
}

/// Every fraction that `value_of` gives is in lowest terms with a positive denominator.
pub proof fn lemma_value_canonical(e: Expr)
    ensures
        value_of(e) is Ok ==> canonical_x(value_of(e)->Ok_0),
    decreases e,
{
    lemma_small_canonical();
    match e {
        Expr::Val(x) => {
            reveal_with_fuel(gcd_nat, 3);
        },
        Expr::Add(a, b) | Expr::Sub(a, b) | Expr::Mul(a, b) | Expr::Div(a, b) | Expr::Rem(a, b)
        | Expr::Exp(a, b) => {
            lemma_value_canonical(*a);
            lemma_value_canonical(*b);
            if value_of(*a) is Ok && value_of(*b) is Ok {
                let x = value_of(*a)->Ok_0;
                let y = value_of(*b)->Ok_0;
                if x is Finite && y is Finite {
                    let p = x->Finite_0;
                    let q = y->Finite_0;
                    lemma_positive_product(p.1, q.1);
                    match e {
                        Expr::Add(_, _) => lemma_lowest(p.0 * q.1 + q.0 * p.1, p.1 * q.1),
                        Expr::Sub(_, _) => lemma_lowest(p.0 * q.1 - q.0 * p.1, p.1 * q.1),
                        Expr::Mul(_, _) => lemma_lowest(p.0 * q.0, p.1 * q.1),
                        Expr::Div(_, _) => {
                            if q.0 > 0 {
                                lemma_positive_product(p.1, q.0);
                                lemma_lowest(p.0 * q.1, p.1 * q.0);
                            } else if q.0 < 0 {
                                lemma_positive_product(p.1, -q.0);
                                assert(-(p.1 * q.0) == p.1 * (-q.0)) by (nonlinear_arith);
                                lemma_lowest(-(p.0 * q.1), -(p.1 * q.0));
                            }
                        },
                        Expr::Rem(_, _) => {
                            lemma_lowest(
                                crate::utils::trunc_rem(p.0 * q.1, q.0 * p.1),
                                p.1 * q.1,
                            );
                        },
                        _ => {
                            if general_pow(p, q) && rooted(p, q.1) {
                                lemma_pow_canonical(p, q);
                            }
                        },
                    }
                }
            }
        },
    }
}

/// Multiplying by the literal `1`, on either side, gives back the other operand itself:
/// no node is added.
pub proof fn lemma_product_identity(a: Expr)
    ensures
        product(a, Expr::Val(1)) == a,
        product(Expr::Val(1), a) == a,
{
}

/// The fraction `0 / d` collapses to the bare literal `0`, never `Div(Val(0), Val(1))`.
pub proof fn lemma_zero_ratio(d: i128)
    requires
        d > 0,
    ensures
        reduced_ratio(0, d as int) == Expr::Val(0),
{
    lemma_gcd_small(0, d as nat);
    assert(abs(0) == 0);
    vstd::arithmetic::div_mod::lemma_div_basics(d as int);
}

/// The literal ratio `reduced_ratio(n, d)` has the same value as the node `n / d`.
pub proof fn lemma_reduced_ratio_value(n: i128, d: i128)
    ensures
        value_of(reduced_ratio(n as int, d as int)) == value_of(
            Expr::Div(Box::new(Expr::Val(n)), Box::new(Expr::Val(d))),
        ),
{
    let ni = n as int;
    let di = d as int;
    reveal_with_fuel(value_of, 2);
    if d != 0 {
        let node = Expr::Div(Box::new(Expr::Val(n)), Box::new(Expr::Val(d)));
        let (m, e) = if d > 0 { (ni, di) } else { (-ni, -di) };
        assert(m == (if di > 0 { ni * 1 } else { -(ni * 1) }));
        assert(e == (if di > 0 { 1 * di } else { -(1 * di) }));
        lemma_lowest(m, e);
        let l = lowest(m, e);
        assert(value_of(node) == Ok::<Extended<(int, int)>, NumericError>(Extended::Finite(l)));
        assert(abs(m) == abs(ni));
        assert(e == abs(di));
        if d == 1 {
            lemma_gcd_small(abs(ni) as nat, 1);
            vstd::arithmetic::div_mod::lemma_div_basics(ni);
            assert(l == (ni, 1int));
        } else if fits(l.0) && fits(l.1) && l.1 != 1 {
            lemma_lowest_canonical(l);
            assert(lowest(l.0 * 1, 1 * l.1) == l);
        }
    }
}

/// A float enters as `reduced_ratio(trunc(v * D), D)`: its exact value is the fraction
/// `n / d` itself, in lowest terms.
pub proof fn lemma_ratio_value(n: i128, d: i128)
    requires
        d > 0,
    ensures
        value_of(reduced_ratio(n as int, d as int)) == Ok::<Extended<(int, int)>, NumericError>(
            Extended::Finite(lowest(n as int, d as int)),
        ),
        lowest(n as int, d as int).0 * d == n * lowest(n as int, d as int).1,
{
    reveal_with_fuel(value_of, 2);
    lemma_reduced_ratio_value(n, d);
    lemma_lowest(n as int, d as int);
    assert(lowest(n * 1, 1 * d) == lowest(n as int, d as int));
}

/// Multiplication's shortcuts never change the value of operands that have finite values:
/// `product(a, b)` is worth the node `a * b`.
pub proof fn lemma_product_keeps_value(a: Expr, b: Expr)
    requires
        value_of(a) is Ok && value_of(a)->Ok_0 is Finite,
        value_of(b) is Ok && value_of(b)->Ok_0 is Finite,
    ensures
        value_of(product(a, b)) == value_of(Expr::Mul(Box::new(a), Box::new(b))),
{
    let p = value_of(a)->Ok_0->Finite_0;
    let q = value_of(b)->Ok_0->Finite_0;
    reveal_with_fuel(value_of, 2);
    lemma_value_canonical(a);
    lemma_value_canonical(b);
    lemma_lowest_canonical(p);
    lemma_lowest_canonical(q);
    if a == Expr::Val(1) {
        assert(lowest(1 * q.0, 1 * q.1) == q);
    } else if a == Expr::Val(0) {
        lemma_gcd_small(0, q.1 as nat);
        vstd::arithmetic::div_mod::lemma_div_basics(q.1);
        assert(abs(0) == 0);
        assert(lowest(0 * q.0, 1 * q.1) == (0int, 1int));
    } else if b == Expr::Val(1) {
        assert(lowest(p.0 * 1, p.1 * 1) == p);
    } else if b == Expr::Val(0) {
        lemma_gcd_small(0, p.1 as nat);
        vstd::arithmetic::div_mod::lemma_div_basics(p.1);
        assert(abs(0) == 0);
        assert(lowest(p.0 * 0, p.1 * 1) == (0int, 1int));
    }
}

/// Division's shortcuts never change the value of operands that have finite values:
/// `quotient(a, b)` is worth the node `a / b`, a zero divisor included.
pub proof fn lemma_quotient_keeps_value(a: Expr, b: Expr)
    requires
        value_of(a) is Ok && value_of(a)->Ok_0 is Finite,
        value_of(b) is Ok && value_of(b)->Ok_0 is Finite,
    ensures
        value_of(quotient(a, b)) == value_of(Expr::Div(Box::new(a), Box::new(b))),
{
    let p = value_of(a)->Ok_0->Finite_0;
    reveal_with_fuel(value_of, 2);
    lemma_value_canonical(a);
    lemma_lowest_canonical(p);
    if b == Expr::Val(1) {
        assert(lowest(p.0 * 1, p.1 * 1) == p);
    } else if a is Val && b is Val {
        lemma_reduced_ratio_value(a->Val_0, b->Val_0);
    }
}

/// `p ^ 1 == p` for a canonical fraction.
proof fn lemma_pow_one(p: (int, int))
    requires
        canonical(p),
    ensures
        pow_x(Extended::Finite(p), Extended::Finite((1int, 1int))) == Ok::<
            Extended<(int, int)>,
            NumericError,
        >(Extended::Finite(p)),
{
    lemma_lowest_canonical(p);
    vstd::arithmetic::power::lemma_pow1(p.0);
    vstd::arithmetic::power::lemma_pow1(p.1);
    assert(abs(1) == 1);
    if p.0 == 0 {
        lemma_gcd_small(0, p.1 as nat);
        assert(abs(0) == 0);
        assert(p == (0int, 1int));
    } else if p.0 == p.1 {
        reveal_with_fuel(gcd_nat, 2);
        vstd::arithmetic::div_mod::lemma_mod_self_0(p.1);
        assert(p == (1int, 1int));
    } else {
        assert(rooted(p, 1));
        assert(root_base(p, 1) == p);
        assert(abs(1) as nat == 1nat);
        assert(pow_q(p, 1) == lowest(p.0, p.1));
        assert(pow_q(p, 1) == p);
    }
}

/// The power's shortcuts never change the value of operands that have finite values, except
/// for a literal `0` base under an exponent whose value is not positive, where the shortcut
/// still yields `0` (`0 ^ (1 - 1)` is worth `1`, `0 ^ -1` is worth `+inf`); a literal `0`
/// exponent is covered: `power(a, b)` is worth the node `a ^ b`.
pub proof fn lemma_power_keeps_value(a: Expr, b: Expr)
    requires
        value_of(a) is Ok && value_of(a)->Ok_0 is Finite,
        value_of(b) is Ok && value_of(b)->Ok_0 is Finite,
        a == Expr::Val(0) ==> value_of(b)->Ok_0->Finite_0.0 > 0 || b == Expr::Val(0),
    ensures
        value_of(power(a, b)) == value_of(Expr::Exp(Box::new(a), Box::new(b))),
{
    let p = value_of(a)->Ok_0->Finite_0;
    let q = value_of(b)->Ok_0->Finite_0;
    let node = Expr::Exp(Box::new(a), Box::new(b));
    assert(value_of(node) == pow_x(Extended::Finite(p), Extended::Finite(q)));
    if b == Expr::Val(1) {
        lemma_value_canonical(a);
        assert(q == (1int, 1int));
        lemma_pow_one(p);
    } else if b == Expr::Val(0) {
        assert(q == (0int, 1int));
    } else if a == Expr::Val(0) {
        assert(p == (0int, 1int));
        assert(value_of(Expr::Val(0)) == Ok::<Extended<(int, int)>, NumericError>(
            Extended::Finite((0int, 1int)),
        ));
    }
}

/// Every operator acts on finite exact values as `f64` arithmetic does on the line extended
/// by the infinities: for operands with finite values, the value of the expression that `+`,
/// `-`, `*`, `/`, `%` or `^` builds is `add_x`, `sub_x`, `mul_x`, `div_x`, `rem_x` or `pow_x`
/// of the operands' values (a zero divisor gives an infinity or not-a-number). The one
/// exception is `^` with a literal `0` base and an exponent whose value is not positive,
/// which the shortcut turns into `0`.
pub proof fn lemma_operators_on_values(a: Expr, b: Expr)
    requires
        value_of(a) is Ok && value_of(a)->Ok_0 is Finite,
        value_of(b) is Ok && value_of(b)->Ok_0 is Finite,
    ensures
        value_of(Expr::Add(Box::new(a), Box::new(b))) == Ok::<Extended<(int, int)>, NumericError>(
            add_x(value_of(a)->Ok_0, value_of(b)->Ok_0),
        ),
        value_of(Expr::Sub(Box::new(a), Box::new(b))) == Ok::<Extended<(int, int)>, NumericError>(
            sub_x(value_of(a)->Ok_0, value_of(b)->Ok_0),
        ),
        value_of(product(a, b)) == Ok::<Extended<(int, int)>, NumericError>(
            mul_x(value_of(a)->Ok_0, value_of(b)->Ok_0),
        ),
        value_of(quotient(a, b)) == Ok::<Extended<(int, int)>, NumericError>(
            div_x(value_of(a)->Ok_0, value_of(b)->Ok_0),
        ),
        value_of(Expr::Rem(Box::new(a), Box::new(b))) == Ok::<Extended<(int, int)>, NumericError>(
            rem_x(value_of(a)->Ok_0, value_of(b)->Ok_0),
        ),
        a != Expr::Val(0) || value_of(b)->Ok_0->Finite_0.0 > 0 || b == Expr::Val(0)
            ==> value_of(power(a, b)) == pow_x(value_of(a)->Ok_0, value_of(b)->Ok_0),
{
    lemma_product_keeps_value(a, b);
    lemma_quotient_keeps_value(a, b);
    if a != Expr::Val(0) || value_of(b)->Ok_0->Finite_0.0 > 0 || b == Expr::Val(0) {
        lemma_power_keeps_value(a, b);
    }
}

/// What a checked operation on two fractions with positive denominators agrees with: its
/// fraction is `exact`'s result read back, its error is `exact`'s unless it is an overflow.
pub open spec fn agrees_finite(r: Result<Ratio, NumericError>, exact: Result<(int, int), NumericError>) -> bool {
    match r {
        Ok(v) => exact == Ok::<(int, int), NumericError>(v.pair()) && v.den > 0,
        Err(x) => x == NumericError::ArithmeticOverflow || exact == Err::<(int, int), NumericError>(x),
    }
}

/// The same agreement on the extended line.
pub open spec fn agrees(
    r: Result<Extended<Ratio>, NumericError>,
    exact: Result<Extended<(int, int)>, NumericError>,
) -> bool {
    match r {
        Ok(v) => exact == Ok::<Extended<(int, int)>, NumericError>(view_x(v)) && wf_x(v),
        Err(x) => x == NumericError::ArithmeticOverflow || exact == Err::<
            Extended<(int, int)>,
            NumericError,
        >(x),
    }
}

/// A fraction in lowest terms of `i128` parts is read back unchanged as a `Ratio`.
proof fn lemma_lowest_fits(n: int, d: int)
    requires
        d > 0,
        fits(n),
        fits(d),
    ensures
        to_ratio(lowest(n, d)).pair() == lowest(n, d),
        to_ratio(lowest(n, d)).den > 0,
{
    lemma_lowest(n, d);
    assert(fits(lowest(n, d).0));
    assert(fits(lowest(n, d).1));
}

proof fn lemma_checked_add(p: Ratio, q: Ratio)
    requires
        p.den > 0,
        q.den > 0,
    ensures
        agrees_finite(crate::value::checked_add(p, q), Ok(add_q(p.pair(), q.pair()))),
{
    let (pn, pd, qn, qd) = (p.num as int, p.den as int, q.num as int, q.den as int);
    lemma_positive_product(pd, qd);
    if fits(pn * qd) && fits(qn * pd) && fits(pn * qd + qn * pd) && fits(pd * qd) {
        lemma_lowest_fits(pn * qd + qn * pd, pd * qd);
    }
}

proof fn lemma_checked_sub(p: Ratio, q: Ratio)
    requires
        p.den > 0,
        q.den > 0,
    ensures
        agrees_finite(crate::value::checked_sub(p, q), Ok(sub_q(p.pair(), q.pair()))),
{
    let (pn, pd, qn, qd) = (p.num as int, p.den as int, q.num as int, q.den as int);
    lemma_positive_product(pd, qd);
    if fits(pn * qd) && fits(qn * pd) && fits(pn * qd - qn * pd) && fits(pd * qd) {
        lemma_lowest_fits(pn * qd - qn * pd, pd * qd);
    }
}

proof fn lemma_checked_mul(p: Ratio, q: Ratio)
    requires
        p.den > 0,
        q.den > 0,
    ensures
        agrees_finite(crate::value::checked_mul(p, q), Ok(mul_q(p.pair(), q.pair()))),
{
    let (pn, pd, qn, qd) = (p.num as int, p.den as int, q.num as int, q.den as int);
    lemma_positive_product(pd, qd);
    if fits(pn * qn) && fits(pd * qd) {
        lemma_lowest_fits(pn * qn, pd * qd);
    }
}

proof fn lemma_checked_div(p: Ratio, q: Ratio)
    requires
        p.den > 0,
        q.den > 0,
        q.num != 0,
    ensures
        agrees_finite(crate::value::checked_div(p, q), Ok(div_q(p.pair(), q.pair()))),
{
    let (pn, pd, qn, qd) = (p.num as int, p.den as int, q.num as int, q.den as int);
    if fits(pn * qd) && fits(pd * qn) {
        if qn > 0 {
            lemma_positive_product(pd, qn);
            lemma_lowest_fits(pn * qd, pd * qn);
        } else {
            lemma_positive_product(pd, -qn);
            assert(-(pd * qn) == pd * (-qn)) by (nonlinear_arith);
            if fits(-(pn * qd)) && fits(-(pd * qn)) {
                lemma_lowest_fits(-(pn * qd), -(pd * qn));
            }
        }
    }
}

proof fn lemma_checked_rem(p: Ratio, q: Ratio)
    requires
        p.den > 0,
        q.den > 0,
        q.num != 0,
    ensures
        agrees_finite(crate::value::checked_rem(p, q), Ok(rem_q(p.pair(), q.pair()))),
{
    let (pn, pd, qn, qd) = (p.num as int, p.den as int, q.num as int, q.den as int);
    lemma_positive_product(pd, qd);
    let x = pn * qd;
    let y = qn * pd;
    if fits(x) && fits(y) && fits(pd * qd) && !(x == i128::MIN && y == -1) {
        lemma_nonzero_product(qn, pd);
        let r = crate::utils::trunc_rem(x, y);
        assert(fits(r)) by {
            if x >= 0 {
                assert(0 <= x % y < abs(y));
            } else {
                assert(0 <= (-x) % y < abs(y));
            }
        }
        lemma_lowest_fits(r, pd * qd);
    }
}

proof fn lemma_checked_pow(p: Ratio, q: Ratio)
    requires
        p.den > 0,
        q.den > 0,
        general_pow(p.pair(), q.pair()),
    ensures
        agrees_finite(
            crate::value::checked_pow(p, q),
            if !rooted(p.pair(), q.den as int) {
                Err(NumericError::NotRational)
            } else {
                Ok(pow_q(root_base(p.pair(), q.den as int), q.num as int))
            },
        ),
{
    if rooted(p.pair(), q.den as int) {
        lemma_root_base(p.pair(), q.den as int);
        let b = root_base(p.pair(), q.den as int);
        let k = q.num as int;
        let m = abs(k) as nat;
        let n = pow(b.0, m);
        let d = pow(b.1, m);
        vstd::arithmetic::power::lemma_pow_positive(b.1, m);
        if abs(n) <= i128::MAX && abs(d) <= i128::MAX {
            if k >= 0 {
                lemma_lowest_fits(n, d);
            } else {
                lemma_pow_abs_grows(b.0, 0, m);
                vstd::arithmetic::power::lemma_pow0(b.0);
                if n > 0 {
                    lemma_lowest_fits(d, n);
                } else {
                    lemma_lowest_fits(-d, -n);
                }
            }
        }
    }
}

/// An extended number whose fraction fits in `i128` survives the round trip through
/// `Ratio`.
proof fn lemma_round_trip(v: Extended<(int, int)>)
    requires
        v is Finite ==> fits(v->Finite_0.0) && fits(v->Finite_0.1) && v->Finite_0.1 > 0,
    ensures
        view_x(to_ratio_x(v)) == v,
        wf_x(to_ratio_x(v)),
{
}

/// Each checked operation on the extended line agrees with the exact one.
proof fn lemma_checked_x(x: Extended<Ratio>, y: Extended<Ratio>)
    requires
        wf_x(x),
        wf_x(y),
    ensures
        agrees(checked_add_x(x, y), Ok(add_x(view_x(x), view_x(y)))),
        agrees(checked_sub_x(x, y), Ok(sub_x(view_x(x), view_x(y)))),
        agrees(checked_mul_x(x, y), Ok(mul_x(view_x(x), view_x(y)))),
        agrees(checked_div_x(x, y), Ok(div_x(view_x(x), view_x(y)))),
        agrees(checked_rem_x(x, y), Ok(rem_x(view_x(x), view_x(y)))),
        agrees(checked_pow_x(x, y), pow_x(view_x(x), view_x(y))),
{
    let vx = view_x(x);
    let vy = view_x(y);
    lemma_round_trip(Extended::Finite((0int, 1int)));
    lemma_round_trip(Extended::Finite((1int, 1int)));
    if x is Finite && y is Finite {
        let p = x->Finite_0;
        let q = y->Finite_0;
        lemma_checked_add(p, q);
        lemma_checked_sub(p, q);
        lemma_checked_mul(p, q);
        if q.num != 0 {
            lemma_checked_div(p, q);
            lemma_checked_rem(p, q);
        } else {
            lemma_round_trip(div_x(vx, vy));
            lemma_round_trip(rem_x(vx, vy));
        }
        if general_pow(p.pair(), q.pair()) {
            lemma_checked_pow(p, q);
        } else if pow_x(vx, vy) is Ok {
            lemma_round_trip(pow_x(vx, vy)->Ok_0);
        }
    } else {
        lemma_round_trip(add_x(vx, vy));
        lemma_round_trip(sub_x(vx, vy));
        lemma_round_trip(mul_x(vx, vy));
        lemma_round_trip(div_x(vx, vy));
        lemma_round_trip(rem_x(vx, vy));
        if pow_x(vx, vy) is Ok {
            lemma_round_trip(pow_x(vx, vy)->Ok_0);
        }
    }
}

/// `Expr::exact` computes the exact value: wherever it reports no overflow, its result (an
/// extended number or an error) is the one of `value_of`, and its fractions have positive
/// denominators.
pub proof fn lemma_evaluation_exact(e: Expr)
    ensures
        agrees(evaluation(e), value_of(e)),
    decreases e,
{
    match e {
        Expr::Val(x) => {},
        Expr::Add(a, b) | Expr::Sub(a, b) | Expr::Mul(a, b) | Expr::Div(a, b) | Expr::Rem(a, b)
        | Expr::Exp(a, b) => {
            lemma_evaluation_exact(*a);
            lemma_evaluation_exact(*b);
            if evaluation(*a) is Ok && evaluation(*b) is Ok {
                lemma_checked_x(evaluation(*a)->Ok_0, evaluation(*b)->Ok_0);
            }
        },
    }
}

/// Equality is by value, not by shape: two expressions whose values `Expr::exact` can
/// compute are `==` exactly when those values are the same extended number, not-a-number
/// excepted.
pub proof fn lemma_equality_by_value(a: Expr, b: Expr)
    requires
        evaluation(a) is Ok,
        evaluation(b) is Ok,
    ensures
        a.eq_spec(&b) <==> value_of(a) == value_of(b) && value_of(a) != Ok::<
            Extended<(int, int)>,
            NumericError,
        >(Extended::NaN),
{
    lemma_evaluation_exact(a);
    lemma_evaluation_exact(b);
    let x = evaluation(a)->Ok_0;
    let y = evaluation(b)->Ok_0;
    if view_x(x) == view_x(y) {
        if x is Finite {
            assert(x->Finite_0.pair() == y->Finite_0.pair());
            assert(x->Finite_0 == y->Finite_0);
        }
        assert(x == y);
    }
}

} // verus!
