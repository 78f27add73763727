use precise_algebra::expression::Expr;
use precise_algebra::vector::Vector2;

#[test]
fn vector2_new() {
    let result = Vector2::new();
    let expected_result = Vector2 {
        data: [
            Expr::from(0),
            Expr::from(0),
        ]
    };

    assert_eq!(result, expected_result);
}

#[test]
fn vector2_from_expr() {
    let result = Vector2::from(Expr::from(3));
    let expected_result = Vector2 {
        data: [
            Expr::from(3),
            Expr::from(3),
        ]
    };

    assert_eq!(result, expected_result);
}

#[test]
fn vector2_from_i16() {
    let result = Vector2::from(3_i16);
    let expected_result = Vector2 {
        data: [
            Expr::from(3_i16),
            Expr::from(3_i16),
        ]
    };

    assert_eq!(result, expected_result);
}

#[test]
fn vector2_from_i32() {
    let result = Vector2::from(3_i32);
    let expected_result = Vector2 {
        data: [
            Expr::from(3_i32),
            Expr::from(3_i32),
        ]
    };

    assert_eq!(result, expected_result);
}

#[test]
fn from_expr_expr() {
    let result = Vector2::from((Expr::from(3), Expr::from(2)));
    let expected_result = Vector2 {
        data: [
            Expr::from(3),
            Expr::from(2),
        ]
    };

    assert_eq!(result, expected_result);
}

#[test]
fn from_i16_i16() {
    let result = Vector2::from((3_i16, 2_i16));
    let expected_result = Vector2 {
        data: [
            Expr::from(3_i16),
            Expr::from(2_i16),
        ]
    };

    assert_eq!(result, expected_result);
}

#[test]
fn from_i32_i32() {
    let result = Vector2::from((3_i32, 2_i32));
    let expected_result = Vector2 {
        data: [
            Expr::from(3_i32),
            Expr::from(2_i32),
        ]
    };

    assert_eq!(result, expected_result);
}

#[test]
fn vector2_x() {
    let result = Vector2::from((4, 3))[0].clone();
    let expected_result = Expr::from(4);

    assert_eq!(result, expected_result);
}

#[test]
fn vector2_x_mut() {
    let result = Vector2::from((4, 3)).x_mut().clone();
    let expected_result = Expr::from(4);

    assert_eq!(result, expected_result);
}

#[test]
fn vector2_y() {
    let result = Vector2::from((4, 3))[1].clone();
    let expected_result = Expr::from(3);

    assert_eq!(result, expected_result);
}

#[test]
fn vector2_y_mut() {
    let result = Vector2::from((4, 3)).y_mut().clone();
    let expected_result = Expr::from(3);

    assert_eq!(result, expected_result);
}

#[test]
fn vector2_add() {
    let result = Vector2::from((3, 5)) + Vector2::from(2);
    let expected_result = Vector2::from((5, 7));

    assert_eq!(result, expected_result);
}

#[test]
fn vector2_sub() {
    let result = Vector2::from((3, 5)) - Vector2::from(2);
    let expected_result = Vector2::from((1, 3));

    assert_eq!(result, expected_result);

}

#[test]
fn vector2_dot() {
    let result = Vector2::from((3, 5)) * Vector2::from(2);
    let expected_result = 16;

    assert_eq!(result, expected_result);
}

#[test]
fn vector2_component() {
    let result = Vector2::from((3, 5)).component(Vector2::from((2, 4)));
    let expected_result = Vector2::from((6, 20));

    assert_eq!(result, expected_result);
}

#[test]
fn vector2_scale_expr() {
    let result = Vector2::from((3, 5)) * Expr::from(2);
    let expected_result = Vector2::from((6, 10));

    assert_eq!(result, expected_result);
}

#[test]
fn vector2_scale_i16() {
    let result = Vector2::from((3, 5)) * 2_i16;
    let expected_result = Vector2::from((6, 10));

    assert_eq!(result, expected_result);
}

#[test]
fn vector2_scale_i32() {
    let result = Vector2::from((3, 5)) * 2_i32;
    let expected_result = Vector2::from((6, 10));

    assert_eq!(result, expected_result);
}

#[test]
fn vector2_norm() {
    let result = Vector2::from((6, 8)).norm();
    let expected_result = 10;

    assert_eq!(result, expected_result);
}

#[test]
fn vector2_normalize() {
    let vector = Vector2::from((3, 4));
    let norm = vector.norm();

    let result = vector.normalize();
    let expected_result = Vector2::from((3 / norm.clone(), 4 / norm.clone()));

    assert_eq!(result, expected_result);
}

#[test]
fn vector2_index() {
    let vector = Vector2::from((3, 5));

    let result1 = &vector[0];
    let result2 = &vector[1];
    
    let expected_result1 = Expr::from(3);
    let expected_result2 = Expr::from(5);

    assert_eq!(*result1, expected_result1);
    assert_eq!(*result2, expected_result2);
}

#[test]
#[allow(unused_mut)]
fn vector2_index_mut() {
    let vector = Vector2::from((3, 5));

    let mut result1 = &vector[0];
    let mut result2 = &vector[1];
    
    let expected_result1 = Expr::from(3);
    let expected_result2 = Expr::from(5);

    assert_eq!(*result1, expected_result1);
    assert_eq!(*result2, expected_result2);
}
