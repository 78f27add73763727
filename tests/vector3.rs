use precise_algebra::expression::Expr;
use precise_algebra::vector::Vector3;

#[test]
fn vector3_new() {
    let result = Vector3::new();
    let expected_result = Vector3 {
        data: [
            Expr::from(0),
            Expr::from(0),
            Expr::from(0),
        ]
    };

    assert_eq!(result, expected_result);
}

#[test]
fn vector3_from_expr() {
    let result = Vector3::from(Expr::from(3));
    let expected_result = Vector3 {
        data: [
            Expr::from(3),
            Expr::from(3),
            Expr::from(3),
        ]
    };

    assert_eq!(result, expected_result);
}

#[test]
fn vector3_from_i16() {
    let result = Vector3::from(3_i16);
    let expected_result = Vector3 {
        data: [
            Expr::from(3_i16),
            Expr::from(3_i16),
            Expr::from(3_i16),
        ]
    };

    assert_eq!(result, expected_result);
}

#[test]
fn vector3_from_i32() {
    let result = Vector3::from(3_i32);
    let expected_result = Vector3 {
        data: [
            Expr::from(3_i32),
            Expr::from(3_i32),
            Expr::from(3_i32),
        ]
    };

    assert_eq!(result, expected_result);
}

#[test]
fn from_expr_expr_expr() {
    let result = Vector3::from((Expr::from(3), Expr::from(2), Expr::from(4)));
    let expected_result = Vector3 {
        data: [
            Expr::from(3),
            Expr::from(2),
            Expr::from(4),
        ]
    };

    assert_eq!(result, expected_result);
}

#[test]
fn from_i16_i16_i16() {
    let result = Vector3::from((3_i16, 2_i16, 4_i16));
    let expected_result = Vector3 {
        data: [
            Expr::from(3_i16),
            Expr::from(2_i16),
            Expr::from(4_i16),
        ]
    };

    assert_eq!(result, expected_result);
}

#[test]
fn from_i32_i32_i32() {
    let result = Vector3::from((3_i32, 2_i32, 4_i32));
    let expected_result = Vector3 {
        data: [
            Expr::from(3_i32),
            Expr::from(2_i32),
            Expr::from(4_i32),
        ]
    };

    assert_eq!(result, expected_result);
}

#[test]
fn vector3_x() {
    let result = Vector3::from((4, 3, 1)).x().clone();
    let expected_result = Expr::from(4);

    assert_eq!(result, expected_result);
}

#[test]
fn vector3_x_mut() {
    let result = Vector3::from((4, 3, 1)).x_mut().clone();
    let expected_result = Expr::from(4);

    assert_eq!(result, expected_result);
}

#[test]
fn vector3_y() {
    let result = Vector3::from((4, 3, 1)).y().clone();
    let expected_result = Expr::from(3);

    assert_eq!(result, expected_result);
}

#[test]
fn vector3_y_mut() {
    let result = Vector3::from((4, 3, 1)).y_mut().clone();
    let expected_result = Expr::from(3);

    assert_eq!(result, expected_result);
}

#[test]
fn vector3_z() {
    let result = Vector3::from((4, 3, 1)).z().clone();
    let expected_result = Expr::from(1);

    assert_eq!(result, expected_result);
}

#[test]
fn vector3_z_mut() {
    let result = Vector3::from((4, 3, 1)).z_mut().clone();
    let expected_result = Expr::from(1);

    assert_eq!(result, expected_result);
}

#[test]
fn vector3_add() {
    let result = Vector3::from((3, 5, 2)) + Vector3::from(2);
    let expected_result = Vector3::from((5, 7, 4));

    assert_eq!(result, expected_result);
}

#[test]
fn vector3_sub() {
    let result = Vector3::from((3, 5, 2)) - Vector3::from(2);
    let expected_result = Vector3::from((1, 3, 0));

    assert_eq!(result, expected_result);

}

#[test]
fn vector3_dot() {
    let result = Vector3::from((3, 5, 2)) * Vector3::from(2);
    let expected_result = 20;

    assert_eq!(result, expected_result);
}

#[test]
fn vector3_component() {
    let result = Vector3::from((3, 5, 2)).component(Vector3::from((2, 4, 3)));
    let expected_result = Vector3::from((6, 20, 6));

    assert_eq!(result, expected_result);
}

#[test]
fn vector3_scale_expr() {
    let result = Vector3::from((3, 5, 2)) * Expr::from(2);
    let expected_result = Vector3::from((6, 10, 4));

    assert_eq!(result, expected_result);
}

#[test]
fn vector3_scale_i16() {
    let result = Vector3::from((3, 5, 2)) * 2_i16;
    let expected_result = Vector3::from((6, 10, 4));

    assert_eq!(result, expected_result);
}

#[test]
fn vector3_scale_i32() {
    let result = Vector3::from((3, 5, 2)) * 2_i32;
    let expected_result = Vector3::from((6, 10, 4));

    assert_eq!(result, expected_result);
}


#[test]
fn vector3_index() {
    let vector = Vector3::from((3, 5, 2));

    let result1 = &vector[0];
    let result2 = &vector[1];
    let result3 = &vector[2];
    
    let expected_result1 = Expr::from(3);
    let expected_result2 = Expr::from(5);
    let expected_result3 = Expr::from(2);

    assert_eq!(*result1, expected_result1);
    assert_eq!(*result2, expected_result2);
    assert_eq!(*result3, expected_result3);
}

#[test]
#[allow(unused_mut)]
fn vector3_index_mut() {
    let vector = Vector3::from((3, 5, 2));

    let mut result1 = &vector[0];
    let mut result2 = &vector[1];
    let mut result3 = &vector[2];
    
    let expected_result1 = Expr::from(3);
    let expected_result2 = Expr::from(5);
    let expected_result3 = Expr::from(2);

    assert_eq!(*result1, expected_result1);
    assert_eq!(*result2, expected_result2);
    assert_eq!(*result3, expected_result3);
}
