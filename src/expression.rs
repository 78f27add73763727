//! The expression tree: an exact scalar that records arithmetic instead of rounding it.
use vstd::prelude::*;
use crate::utils::{abs, gcd, gcd_nat, lemma_exact_quotient, lemma_gcd_bounds};
use crate::value::{fits, NumericError};

verus! {

/// A scalar held as a finite tree: an integer leaf, or one binary operation that owns its
/// two operands. Floating-point inputs enter as exact fractions (see `Expr::ratio`).
#[derive(Debug)]
pub enum Expr {
    Val(i128),
    Add(Box<Expr>, Box<Expr>),
    Sub(Box<Expr>, Box<Expr>),
    Mul(Box<Expr>, Box<Expr>),
    Div(Box<Expr>, Box<Expr>),
    Rem(Box<Expr>, Box<Expr>),
    Exp(Box<Expr>, Box<Expr>),
}

impl Clone for Expr {
    fn clone(&self) -> (r: Self)
        ensures
            r == *self,
        decreases self,
    {
        match self {
            Expr::Val(x) => Expr::Val(*x),
            Expr::Add(a, b) => Expr::Add(Box::new((**a).clone()), Box::new((**b).clone())),
            Expr::Sub(a, b) => Expr::Sub(Box::new((**a).clone()), Box::new((**b).clone())),
            Expr::Mul(a, b) => Expr::Mul(Box::new((**a).clone()), Box::new((**b).clone())),
            Expr::Div(a, b) => Expr::Div(Box::new((**a).clone()), Box::new((**b).clone())),
            Expr::Rem(a, b) => Expr::Rem(Box::new((**a).clone()), Box::new((**b).clone())),
            Expr::Exp(a, b) => Expr::Exp(Box::new((**a).clone()), Box::new((**b).clone())),
        }
    }
}

/// The fixed denominator with which an `f32` enters: `v` becomes `trunc(v * F32_SCALE) / F32_SCALE`.
pub const F32_SCALE: i128 = 10_000_000;

/// The fixed denominator with which an `f64` enters: `v` becomes `trunc(v * F64_SCALE) / F64_SCALE`.
pub const F64_SCALE: i128 = 10_000_000_000;

/// The literal fraction `n / d` in lowest terms with a positive denominator: a bare `Val` when
/// the reduced denominator is `1`, else `Div(Val(p), Val(q))`.
/// A zero denominator keeps the fraction as given, and so do the few fractions whose reduced,
/// sign-normalised parts do not fit in `i128` (`i128::MIN / -1`, `-1 / i128::MIN`).
pub open spec fn reduced_ratio(n: int, d: int) -> Expr {
    let g = gcd_nat(abs(n) as nat, abs(d) as nat) as int;
    let p = if d > 0 { n / g } else { (-n) / g };
    let q = abs(d) / g;
    if d == 1 {
        Expr::Val(n as i128)
    } else if d == 0 || !fits(p) || !fits(q) {
        Expr::Div(Box::new(Expr::Val(n as i128)), Box::new(Expr::Val(d as i128)))
    } else {
        if q == 1 {
            Expr::Val(p as i128)
        } else {
            Expr::Div(Box::new(Expr::Val(p as i128)), Box::new(Expr::Val(q as i128)))
        }
    }
}

/// `a / b`: divisor `1` gives the dividend; two literals give their reduced ratio;
/// otherwise a `Div` node.
pub open spec fn quotient(a: Expr, b: Expr) -> Expr {
    if b == Expr::Val(1) {
        a
    } else if a is Val && b is Val {
        reduced_ratio(a->Val_0 as int, b->Val_0 as int)
    } else {
        Expr::Div(Box::new(a), Box::new(b))
    }
}

impl Expr {
    /// The exact fraction `numerator / denominator`, reduced by the greatest common divisor,
    /// with a positive denominator, collapsed to a bare value when the denominator reduces to
    /// `1`. A float `v` enters as `Expr::ratio(trunc(v * D), D)` for the fixed scale `D`
    /// of its type (`F32_SCALE`, `F64_SCALE`).
    pub fn ratio(numerator: i128, denominator: i128) -> (r: Expr)
        ensures
            r == reduced_ratio(numerator as int, denominator as int),
    {
        if denominator == 1 {
            return Expr::Val(numerator);
        }
        let ghost g = gcd_nat(abs(numerator as int) as nat, abs(denominator as int) as nat) as int;
        if denominator == 0 || (numerator == i128::MIN && denominator == -1) || (numerator == -1
            && denominator == i128::MIN) {
            proof {
                if denominator != 0 {
                    reveal_with_fuel(gcd_nat, 3);
                    let m = abs(i128::MIN as int);
                    assert(m % 1 == 0);
                    vstd::arithmetic::div_mod::lemma_small_mod(1, m as nat);
                    assert(1int % m == 1);
                    assert(g == 1);
                    vstd::arithmetic::div_mod::lemma_div_basics(m);
                    assert(m / 1 == m);
                }
            }
            return Expr::Div(Box::new(Expr::Val(numerator)), Box::new(Expr::Val(denominator)));
        }
        let s = gcd(numerator, denominator);
        proof {
            lemma_gcd_bounds(numerator as int, denominator as int);
        }
        if s == i128::MIN {
            proof {
                let a = abs(numerator as int);
                vstd::arithmetic::div_mod::lemma_fundamental_div_mod(a, g);
                let k = a / g;
                assert(k == 0 || k == 1) by (nonlinear_arith)
                    requires
                        a == g * k + 0,
                        0 <= a <= g,
                        g > 0,
                ;
                assert(denominator == i128::MIN);
                vstd::arithmetic::div_mod::lemma_div_basics(g);
            }
            return if numerator == 0 { Expr::Val(0) } else { Expr::Val(1) };
        }
        let g: i128 = if s < 0 { -s } else { s };
        proof {
            lemma_exact_quotient(numerator as int, g as int);
            lemma_exact_quotient(-numerator as int, g as int);
            lemma_exact_quotient(denominator as int, g as int);
            lemma_exact_quotient(abs(denominator as int), g as int);
        }
        let n: i128 = numerator / g;
        let d: i128 = denominator / g;
        if d < 0 && (n == i128::MIN || d == i128::MIN) {
            return Expr::Div(Box::new(Expr::Val(numerator)), Box::new(Expr::Val(denominator)));
        }
        let p: i128 = if d < 0 { -n } else { n };
        let q: i128 = if d < 0 { -d } else { d };
        if q == 1 {
            Expr::Val(p)
        } else {
            Expr::Div(Box::new(Expr::Val(p)), Box::new(Expr::Val(q)))
        }
    }
}

/// `a * b`: a literal `1` on either side gives the other operand back, a literal `0` on
/// either side gives `0` (the left operand is looked at first); otherwise a `Mul` node.
pub open spec fn product(a: Expr, b: Expr) -> Expr {
    if a == Expr::Val(1) {
        b
    } else if a == Expr::Val(0) {
        Expr::Val(0)
    } else if b == Expr::Val(1) {
        a
    } else if b == Expr::Val(0) {
        Expr::Val(0)
    } else {
        Expr::Mul(Box::new(a), Box::new(b))
    }
}

/// `a ^ b`: exponent `1` gives the base, exponent `0` gives `1`, base `0` gives `0`;
/// otherwise an `Exp` node.
pub open spec fn power(a: Expr, b: Expr) -> Expr {
    if b == Expr::Val(1) {
        a
    } else if b == Expr::Val(0) {
        Expr::Val(1)
    } else if a == Expr::Val(0) {
        Expr::Val(0)
    } else {
        Expr::Exp(Box::new(a), Box::new(b))
    }
}

impl core::ops::Add for Expr {
    type Output = Expr;

    fn add(self, rhs: Expr) -> Expr {
        Expr::Add(Box::new(self), Box::new(rhs))
    }
}

impl vstd::std_specs::ops::AddSpecImpl for Expr {
    open spec fn obeys_add_spec() -> bool {
        true
    }

    open spec fn add_req(self, rhs: Expr) -> bool {
        true
    }

    open spec fn add_spec(self, rhs: Expr) -> Expr {
        Expr::Add(Box::new(self), Box::new(rhs))
    }
}

impl core::ops::Mul for Expr {
    type Output = Expr;

    fn mul(self, rhs: Expr) -> Expr {
        if let Expr::Val(x) = self {
            if x == 1 {
                return rhs;
            } else if x == 0 {
                return Expr::Val(0);
            }
        }
        if let Expr::Val(x) = rhs {
            if x == 1 {
                return self;
            } else if x == 0 {
                return Expr::Val(0);
            }
        }
        Expr::Mul(Box::new(self), Box::new(rhs))
    }
}

impl vstd::std_specs::ops::MulSpecImpl for Expr {
    open spec fn obeys_mul_spec() -> bool {
        true
    }

    open spec fn mul_req(self, rhs: Expr) -> bool {
        true
    }

    open spec fn mul_spec(self, rhs: Expr) -> Expr {
        product(self, rhs)
    }
}

impl core::ops::Sub for Expr {
    type Output = Expr;

    fn sub(self, rhs: Expr) -> Expr {
        Expr::Sub(Box::new(self), Box::new(rhs))
    }
}

impl vstd::std_specs::ops::SubSpecImpl for Expr {
    open spec fn obeys_sub_spec() -> bool {
        true
    }

    open spec fn sub_req(self, rhs: Expr) -> bool {
        true
    }

    open spec fn sub_spec(self, rhs: Expr) -> Expr {
        Expr::Sub(Box::new(self), Box::new(rhs))
    }
}

impl core::ops::Div for Expr {
    type Output = Expr;

    fn div(self, rhs: Expr) -> Expr {
        if let Expr::Val(x) = rhs {
            if x == 1 {
                return self;
            }
            if let Expr::Val(y) = self {
                return Expr::ratio(y, x);
            }
        }
        Expr::Div(Box::new(self), Box::new(rhs))
    }
}

impl vstd::std_specs::ops::DivSpecImpl for Expr {
    open spec fn obeys_div_spec() -> bool {
        true
    }

    open spec fn div_req(self, rhs: Expr) -> bool {
        true
    }

    open spec fn div_spec(self, rhs: Expr) -> Expr {
        quotient(self, rhs)
    }
}

impl core::ops::Rem for Expr {
    type Output = Expr;

    fn rem(self, rhs: Expr) -> Expr {
        Expr::Rem(Box::new(self), Box::new(rhs))
    }
}

impl vstd::std_specs::ops::RemSpecImpl for Expr {
    open spec fn obeys_rem_spec() -> bool {
        true
    }

    open spec fn rem_req(self, rhs: Expr) -> bool {
        true
    }

    open spec fn rem_spec(self, rhs: Expr) -> Expr {
        Expr::Rem(Box::new(self), Box::new(rhs))
    }
}

/// `^` raises to a power.
impl core::ops::BitXor for Expr {
    type Output = Expr;

    fn bitxor(self, rhs: Expr) -> Expr {
        if let Expr::Val(x) = rhs {
            if x == 1 {
                return self;
            } else if x == 0 {
                return Expr::Val(1);
            }
        }
        if let Expr::Val(x) = self {
            if x == 0 {
                return Expr::Val(0);
            }
        }
        Expr::Exp(Box::new(self), Box::new(rhs))
    }
}

impl vstd::std_specs::ops::BitXorSpecImpl for Expr {
    open spec fn obeys_bitxor_spec() -> bool {
        true
    }

    open spec fn bitxor_req(self, rhs: Expr) -> bool {
        true
    }

    open spec fn bitxor_spec(self, rhs: Expr) -> Expr {
        power(self, rhs)
    }
}

impl From<i8> for Expr {
    fn from(value: i8) -> Expr {
        Expr::Val(value as i128)
    }
}

impl vstd::std_specs::convert::FromSpecImpl<i8> for Expr {
    open spec fn obeys_from_spec() -> bool {
        true
    }

    open spec fn from_spec(value: i8) -> Expr {
        Expr::Val(value as i128)
    }
}

impl From<i16> for Expr {
    fn from(value: i16) -> Expr {
        Expr::Val(value as i128)
    }
}

impl vstd::std_specs::convert::FromSpecImpl<i16> for Expr {
    open spec fn obeys_from_spec() -> bool {
        true
    }

    open spec fn from_spec(value: i16) -> Expr {
        Expr::Val(value as i128)
    }
}

impl From<i32> for Expr {
    fn from(value: i32) -> Expr {
        Expr::Val(value as i128)
    }
}

impl vstd::std_specs::convert::FromSpecImpl<i32> for Expr {
    open spec fn obeys_from_spec() -> bool {
        true
    }

    open spec fn from_spec(value: i32) -> Expr {
        Expr::Val(value as i128)
    }
}

impl From<i64> for Expr {
    fn from(value: i64) -> Expr {
        Expr::Val(value as i128)
    }
}

impl vstd::std_specs::convert::FromSpecImpl<i64> for Expr {
    open spec fn obeys_from_spec() -> bool {
        true
    }

    open spec fn from_spec(value: i64) -> Expr {
        Expr::Val(value as i128)
    }
}

impl From<i128> for Expr {
    fn from(value: i128) -> Expr {
        Expr::Val(value as i128)
    }
}

impl vstd::std_specs::convert::FromSpecImpl<i128> for Expr {
    open spec fn obeys_from_spec() -> bool {
        true
    }

    open spec fn from_spec(value: i128) -> Expr {
        Expr::Val(value as i128)
    }
}

impl From<u8> for Expr {
    fn from(value: u8) -> Expr {
        Expr::Val(value as i128)
    }
}

impl vstd::std_specs::convert::FromSpecImpl<u8> for Expr {
    open spec fn obeys_from_spec() -> bool {
        true
    }

    open spec fn from_spec(value: u8) -> Expr {
        Expr::Val(value as i128)
    }
}

impl From<u16> for Expr {
    fn from(value: u16) -> Expr {
        Expr::Val(value as i128)
    }
}

impl vstd::std_specs::convert::FromSpecImpl<u16> for Expr {
    open spec fn obeys_from_spec() -> bool {
        true
    }

    open spec fn from_spec(value: u16) -> Expr {
        Expr::Val(value as i128)
    }
}

impl From<u32> for Expr {
    fn from(value: u32) -> Expr {
        Expr::Val(value as i128)
    }
}

impl vstd::std_specs::convert::FromSpecImpl<u32> for Expr {
    open spec fn obeys_from_spec() -> bool {
        true
    }

    open spec fn from_spec(value: u32) -> Expr {
        Expr::Val(value as i128)
    }
}

impl From<u64> for Expr {
    fn from(value: u64) -> Expr {
        Expr::Val(value as i128)
    }
}

impl vstd::std_specs::convert::FromSpecImpl<u64> for Expr {
    open spec fn obeys_from_spec() -> bool {
        true
    }

    open spec fn from_spec(value: u64) -> Expr {
        Expr::Val(value as i128)
    }
}

impl From<isize> for Expr {
    fn from(value: isize) -> Expr {
        Expr::Val(value as i128)
    }
}

impl vstd::std_specs::convert::FromSpecImpl<isize> for Expr {
    open spec fn obeys_from_spec() -> bool {
        true
    }

    open spec fn from_spec(value: isize) -> Expr {
        Expr::Val(value as i128)
    }
}

impl From<usize> for Expr {
    fn from(value: usize) -> Expr {
        Expr::Val(value as i128)
    }
}

impl vstd::std_specs::convert::FromSpecImpl<usize> for Expr {
    open spec fn obeys_from_spec() -> bool {
        true
    }

    open spec fn from_spec(value: usize) -> Expr {
        Expr::Val(value as i128)
    }
}

/// A `u128` converts when it fits in `i128`; larger values are an `ArithmeticOverflow`.
impl TryFrom<u128> for Expr {
    type Error = NumericError;

    fn try_from(value: u128) -> Result<Expr, NumericError> {
        if value > i128::MAX as u128 {
            Err(NumericError::ArithmeticOverflow)
        } else {
            Ok(Expr::Val(value as i128))
        }
    }
}

impl vstd::std_specs::convert::TryFromSpecImpl<u128> for Expr {
    open spec fn obeys_try_from_spec() -> bool {
        true
    }

    open spec fn try_from_spec(value: u128) -> Result<Expr, NumericError> {
        if value > i128::MAX {
            Err(NumericError::ArithmeticOverflow)
        } else {
            Ok(Expr::Val(value as i128))
        }
    }
}

} // verus!
