use precise_algebra::expression::Expr;
use precise_algebra::matrix::Matrix2;
use precise_algebra::value::{Extended, Ratio};
use precise_algebra::vector::{Vector2, Vector3};

#[test]
fn sum_of_vector_and_broadcast() {
    assert_eq!(Vector2::from((3, 5)) + Vector2::from(2), Vector2::from((5, 7)));
}

#[test]
fn dot_product_of_two_vectors() {
    assert_eq!(Vector2::from((3, 5)) * Vector2::from(2), 16);
}

#[test]
fn norm_of_three_vector() {
    let n = Vector3::from((6, 8, 0)).norm();
    assert_eq!(n, 10);
    assert_eq!(n.to_string(), "((((6 ^ 2) + (8 ^ 2)) + 0) ^ (1 / 2))");
}

#[test]
fn norm_of_zero_vector_is_zero_and_normalize_divides_by_it() {
    let v = Vector2::new();
    assert_eq!(v.norm(), 0);
    let n = v.normalize();
    assert!(matches!(n[0], Expr::Val(0)));
    let zero = || Expr::from(1) - Expr::from(1);
    let v = Vector2::from((zero(), zero()));
    let n = v.normalize();
    assert_eq!(n[0].exact(), Ok(Extended::NaN));
}

#[test]
fn three_equals_one_plus_two() {
    assert!(Expr::from(3) == (Expr::from(1) + Expr::from(2)));
}

#[test]
fn one_divided_by_zero_defers_failure() {
    let e = Expr::from(1) / Expr::from(0);
    assert_eq!(e.to_string(), "(1 / 0)");
    assert_eq!(e.exact(), Ok(Extended::PosInf));
}

#[test]
fn normalized_vector_has_unit_components() {
    let v = Vector2::from((3, 4)).normalize();
    assert_eq!(v[0].exact(), Ok(Extended::Finite(Ratio { num: 3, den: 5 })));
    assert_eq!(v[1].exact(), Ok(Extended::Finite(Ratio { num: 4, den: 5 })));
}

#[test]
fn vector_component_replaced_in_place() {
    let mut v = Vector3::from((1, 2, 3));
    *v.get_mut(1) = Expr::from(7);
    *v.z_mut() = Expr::from(9);
    assert_eq!(v, Vector3::from((1, 7, 9)));
    assert_eq!(*v.y(), 7);
}

#[test]
fn matrix_indexing_is_linear() {
    let mut m = Matrix2 { data: [Expr::from(1), Expr::from(2), Expr::from(3), Expr::from(4)] };
    assert_eq!(m[2], 3);
    *m.get_mut(3) = Expr::from(8);
    assert_eq!(m[3], 8);
}

#[test]
fn vectors_differ_when_one_component_differs() {
    assert!(Vector2::from((1, 2)) != Vector2::from((1, 3)));
}
