use precise_algebra::expression::{Expr, F32_SCALE, F64_SCALE};
use precise_algebra::value::{Extended, NumericError, Ratio};

fn from_f32(v: f32) -> Expr {
    Expr::ratio((v * (F32_SCALE as f32)) as i128, F32_SCALE)
}

fn from_f64(v: f64) -> Expr {
    Expr::ratio((v * (F64_SCALE as f64)) as i128, F64_SCALE)
}

fn is_div_of(e: &Expr, a: i128, b: i128) -> bool {
    match e {
        Expr::Div(x, y) => matches!(**x, Expr::Val(p) if p == a) && matches!(**y, Expr::Val(q) if q == b),
        _ => false,
    }
}

#[test]
fn expression_from_i16() {
    let result = Expr::from(3_i16);
    let expected_result = Expr::Val(3);

    assert_eq!(result, expected_result);
}

#[test]
fn expression_from_i32() {
    let result = Expr::from(3_i32);
    let expected_result = Expr::Val(3);

    assert_eq!(result, expected_result);
}

#[test]
fn expression_from_f32() {
    let result = from_f32(3.2_f32);
    let expected_result = Expr::Div(Box::new(Expr::from(16)), Box::new(Expr::from(5)));

    assert_eq!(result, expected_result);
    assert!(is_div_of(&result, 16, 5));
}

#[test]
fn expression_from_f64() {
    let result = from_f64(3.2_f64);
    let expected_result = Expr::Div(Box::new(Expr::from(16)), Box::new(Expr::from(5)));

    assert_eq!(result, expected_result);
    assert!(is_div_of(&result, 16, 5));
}

#[test]
fn expression_add() {
    let lhs = Expr::from(5);
    let rhs = Expr::from(16);

    let result = lhs + rhs;
    let expected_result = 21;

    assert_eq!(result, expected_result);
}

#[test]
fn expression_sub() {
    let lhs = Expr::from(5);
    let rhs = Expr::from(16);

    let result = lhs - rhs;
    let expected_result = -11;

    assert_eq!(result, expected_result);
}

#[test]
fn mul() {
    let lhs = Expr::from(5);
    let rhs = Expr::from(16);

    let result = lhs * rhs;
    let expected_result = 80;

    assert_eq!(result, expected_result);
}

#[test]
fn div() {
    let lhs = Expr::from(5);
    let rhs = Expr::from(16);

    let result = lhs / rhs;
    let expected_result = from_f64(5.0 / 16.0);

    assert_eq!(result, expected_result);
}

#[test]
fn rem() {
    let lhs = Expr::from(5);
    let rhs = Expr::from(16);

    let result = lhs % rhs;
    let expected_result = 5 % 16;

    assert_eq!(result, expected_result);
}

#[test]
fn pow() {
    let result = Expr::from(5) ^ Expr::from(16);
    let expected_result = 5_f64.powf(16.0) as i128;

    assert_eq!(result, expected_result);
}

#[test]
fn exact_value_of_compound_expression() {
    let e: Expr = (5 * (Expr::from(3) + 2 - from_f64(0.5) / 5 * 2) / 31 + 55) / 23;
    assert_eq!(e.exact(), Ok(Extended::Finite(Ratio { num: 1729, den: 713 })));
}

#[test]
fn ratio_reduces_and_collapses() {
    assert!(matches!(Expr::ratio(10, 5), Expr::Val(2)));
    assert!(is_div_of(&Expr::ratio(6, 4), 3, 2));
    assert!(is_div_of(&Expr::ratio(6, -4), -3, 2));
    assert!(is_div_of(&Expr::ratio(-5, 10), -1, 2));
    assert!(is_div_of(&Expr::ratio(1, 0), 1, 0));
}

#[test]
fn zero_float_is_bare_zero() {
    let zero = from_f64(0.0);
    assert!(matches!(zero, Expr::Val(0)));
    assert!(matches!(Expr::ratio(0, F32_SCALE), Expr::Val(0)));
    assert_eq!(zero.exact(), Ok(Extended::Finite(Ratio { num: 0, den: 1 })));
}

#[test]
fn float_conversion_is_exact_to_the_scale() {
    let e = from_f64(0.1);
    assert!(is_div_of(&e, 1, 10));
    let e = from_f64(-2.75);
    assert!(is_div_of(&e, -11, 4));
}

#[test]
fn multiplying_by_one_adds_no_node() {
    let a = Expr::from(2) + Expr::from(3);
    let r = a.clone() * Expr::from(1);
    assert_eq!(r.to_string(), a.to_string());
    assert_eq!(r.to_string(), "(2 + 3)");
    let r = Expr::from(1) * a.clone();
    assert_eq!(r.to_string(), "(2 + 3)");
    assert_eq!(r, a);
}

#[test]
fn multiplying_by_literal_zero_gives_zero() {
    let a = Expr::from(2) + Expr::from(3);
    assert!(matches!(a.clone() * Expr::from(0), Expr::Val(0)));
    assert!(matches!(Expr::from(0) * a, Expr::Val(0)));
    let z = Expr::from(1) - Expr::from(1);
    let r = z * Expr::from(7);
    assert_eq!(r.to_string(), "((1 - 1) * 7)");
}

#[test]
fn dividing_by_one_returns_the_dividend() {
    let a = Expr::from(2) + Expr::from(3);
    assert_eq!((a / Expr::from(1)).to_string(), "(2 + 3)");
}

#[test]
fn dividing_literals_reduces() {
    assert!(is_div_of(&(Expr::from(6) / Expr::from(4)), 3, 2));
    assert!(matches!(Expr::from(8) / Expr::from(4), Expr::Val(2)));
}

#[test]
fn power_shortcuts() {
    let a = Expr::from(2) + Expr::from(3);
    assert_eq!((a.clone() ^ Expr::from(1)).to_string(), "(2 + 3)");
    assert!(matches!(a.clone() ^ Expr::from(0), Expr::Val(1)));
    assert!(matches!(Expr::from(0) ^ a.clone(), Expr::Val(0)));
    assert_eq!((a ^ Expr::from(2)).to_string(), "((2 + 3) ^ 2)");
}

#[test]
fn semantic_equality_ignores_shape() {
    assert!(Expr::from(3) == (Expr::from(1) + Expr::from(2)));
    assert!(Expr::from(3) != (Expr::from(1) + Expr::from(1)));
}

#[test]
fn power_of_five() {
    let result = (Expr::from(5) ^ Expr::from(16)).exact();
    assert_eq!(result, Ok(Extended::Finite(Ratio { num: 152_587_890_625, den: 1 })));
    assert_eq!(5.0_f64.powf(16.0), 152_587_890_625.0);
}

#[test]
fn negative_power_is_reciprocal() {
    let r = (Expr::from(-2) ^ Expr::from(-3)).exact();
    assert_eq!(r, Ok(Extended::Finite(Ratio { num: -1, den: 8 })));
}

#[test]
fn division_by_zero_is_deferred() {
    let e = Expr::from(1) / Expr::from(0);
    assert!(is_div_of(&e, 1, 0));
    assert_eq!(e.exact(), Ok(Extended::PosInf));
    assert!(e == e.clone());
    assert!(e > Expr::from(0));
    assert!(e > Expr::from(i128::MAX));
    let neg = Expr::from(-1) / Expr::from(0);
    assert_eq!(neg.exact(), Ok(Extended::NegInf));
    assert!(neg < Expr::from(i128::MIN));
    assert!(neg != e);
}

#[test]
fn zero_over_zero_is_not_a_number() {
    let e = Expr::from(0) / (Expr::from(1) - Expr::from(1));
    assert_eq!(e.exact(), Ok(Extended::NaN));
    assert!(e != e.clone());
    assert_eq!(e.partial_cmp(&Expr::from(1)), Some(std::cmp::Ordering::Equal));
}

#[test]
fn infinities_follow_float_rules() {
    let inf = || Expr::from(1) / Expr::from(0);
    assert_eq!((inf() + Expr::from(5)).exact(), Ok(Extended::PosInf));
    assert_eq!((inf() - inf()).exact(), Ok(Extended::NaN));
    assert_eq!((inf() * (Expr::from(1) - Expr::from(1))).exact(), Ok(Extended::NaN));
    assert_eq!((inf() * Expr::from(-2)).exact(), Ok(Extended::NegInf));
    assert_eq!((Expr::from(3) / inf()).exact(), Ok(Extended::Finite(Ratio { num: 0, den: 1 })));
    assert_eq!((Expr::from(3) % inf()).exact(), Ok(Extended::Finite(Ratio { num: 3, den: 1 })));
    assert_eq!((Expr::from(3) % (Expr::from(1) - Expr::from(1))).exact(), Ok(Extended::NaN));
    assert_eq!((Expr::from(2) ^ inf()).exact(), Ok(Extended::PosInf));
    assert_eq!((Expr::ratio(1, 2) ^ inf()).exact(), Ok(Extended::Finite(Ratio { num: 0, den: 1 })));
    assert_eq!(((Expr::from(0) - inf()) ^ Expr::from(3)).exact(), Ok(Extended::NegInf));
    assert_eq!(((Expr::from(1) - Expr::from(1)) ^ Expr::from(-1)).exact(), Ok(Extended::PosInf));
    let nan = || Expr::from(0) / (Expr::from(1) - Expr::from(1));
    assert_eq!((nan() ^ (Expr::from(1) - Expr::from(1))).exact(), Ok(Extended::Finite(Ratio { num: 1, den: 1 })));
}

#[test]
fn remainder_of_fractions() {
    let e = from_f64(7.5) % Expr::from(2);
    assert_eq!(e.exact(), Ok(Extended::Finite(Ratio { num: 3, den: 2 })));
    let e = Expr::from(-7) % Expr::from(2);
    assert_eq!(e.exact(), Ok(Extended::Finite(Ratio { num: -1, den: 1 })));
}

#[test]
fn overflow_is_reported() {
    let big = Expr::from(i128::MAX);
    let e = big.clone() + Expr::from(1);
    assert_eq!(e.exact(), Err(NumericError::ArithmeticOverflow));
    let e = Expr::from(2) ^ Expr::from(127);
    assert_eq!(e.exact(), Err(NumericError::ArithmeticOverflow));
    let e = Expr::from(2) ^ Expr::from(126);
    assert_eq!(e.exact(), Ok(Extended::Finite(Ratio { num: 1 << 126, den: 1 })));
}

#[test]
fn fractional_exponent_of_non_power_has_no_exact_value() {
    let e = Expr::from(2) ^ Expr::ratio(1, 2);
    assert_eq!(e.exact(), Err(NumericError::NotRational));
    let e = Expr::from(-8) ^ Expr::ratio(1, 3);
    assert_eq!(e.exact(), Ok(Extended::NaN));
}

#[test]
fn fractional_exponent_of_exact_power_is_exact() {
    let e = Expr::from(100) ^ Expr::ratio(1, 2);
    assert_eq!(e, 10);
    let e = Expr::ratio(8, 27) ^ Expr::ratio(2, 3);
    assert_eq!(e.exact(), Ok(Extended::Finite(Ratio { num: 4, den: 9 })));
    let e = Expr::ratio(1, 4) ^ Expr::ratio(-3, 2);
    assert_eq!(e, 8);
    let e = Expr::from(0) - Expr::from(0);
    assert_eq!((e ^ Expr::ratio(1, 2)).exact(), Ok(Extended::Finite(Ratio { num: 0, den: 1 })));
}

#[test]
fn ordering_follows_value() {
    let a = from_f64(0.5);
    let b = Expr::from(1) / Expr::from(3);
    assert!(b < a);
    assert!(a > b);
    assert!(Expr::from(2) <= Expr::from(4) / Expr::from(2));
    assert_eq!((Expr::from(1) / Expr::from(0)).partial_cmp(&a), Some(std::cmp::Ordering::Greater));
    assert_eq!((Expr::from(2) ^ Expr::ratio(1, 2)).partial_cmp(&a), None);
}

#[test]
fn rendering_is_fully_parenthesised() {
    let e = (Expr::from(1) + Expr::from(-2)) * Expr::from(3) - Expr::from(4) % Expr::from(5);
    assert_eq!(e.to_string(), "(((1 + -2) * 3) - (4 % 5))");
    assert_eq!(Expr::from(i128::MIN).to_string(), i128::MIN.to_string());
    assert_eq!(Expr::from(0).to_string(), "0");
    assert_eq!((Expr::from(7) ^ Expr::from(3)).to_string(), "(7 ^ 3)");
    assert_eq!((Expr::from(7) / (Expr::from(1) + Expr::from(1))).to_string(), "(7 / (1 + 1))");
}

#[test]
fn integer_operands_on_either_side() {
    assert_eq!(Expr::from(5) + 2_u8, 7);
    assert_eq!(2_i64 - Expr::from(5), -3);
    assert_eq!(3_u32 * Expr::from(5), 15);
    assert!(matches!(Expr::from(9) / 3_usize, Expr::Val(3)));
    assert_eq!(Expr::from(2) ^ 10_i8, 1024);
}

#[test]
fn wide_integer_conversions() {
    assert_eq!(Expr::from(u64::MAX), u64::MAX);
    assert_eq!(Expr::from(i64::MIN), i64::MIN);
    assert_eq!(Expr::from(usize::MAX), usize::MAX);
}

#[test]
fn ordering_of_large_fractions_does_not_overflow() {
    let a = Expr::from(i128::MAX) / Expr::from(3);
    let b = Expr::from(i128::MAX - 1) / Expr::from(3);
    assert!(b < a);
    let c = Expr::from(i128::MIN + 1) / Expr::from(i128::MAX);
    assert_eq!(c.partial_cmp(&Expr::from(-1)), Some(std::cmp::Ordering::Equal));
    let x = Expr::from(i128::MAX - 2) / Expr::from(i128::MAX - 1);
    let y = Expr::from(i128::MAX - 1) / Expr::from(i128::MAX);
    assert!(x < y);
}

#[test]
fn integer_equality_needs_an_integer_value() {
    assert!(Expr::ratio(1, 2) != 0);
    assert!(Expr::ratio(4, 2) == 2);
    assert!((Expr::from(1) / Expr::from(0)) != 1);
}

#[test]
fn u128_converts_only_when_it_fits() {
    assert!(matches!(Expr::try_from(7_u128), Ok(Expr::Val(7))));
    assert!(matches!(Expr::try_from(i128::MAX as u128), Ok(Expr::Val(i128::MAX))));
    assert!(matches!(Expr::try_from(u128::MAX), Err(NumericError::ArithmeticOverflow)));
}

#[test]
fn ratio_with_extreme_parts_reduces_where_it_fits() {
    assert!(matches!(Expr::Val(i128::MIN) / Expr::Val(2), Expr::Val(v) if v == -(1_i128 << 126)));
    assert!(matches!(Expr::ratio(i128::MIN, i128::MIN), Expr::Val(1)));
    assert!(matches!(Expr::ratio(0, i128::MIN), Expr::Val(0)));
    assert!(is_div_of(&Expr::ratio(3, i128::MIN + 1), -3, i128::MAX));
    assert!(is_div_of(&Expr::ratio(i128::MIN, -1), i128::MIN, -1));
    assert!(is_div_of(&Expr::ratio(-1, i128::MIN), -1, i128::MIN));
    assert!(is_div_of(&Expr::ratio(i128::MIN, -3), i128::MIN, -3));
}
