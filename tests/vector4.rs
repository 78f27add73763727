use precise_algebra::expression::Expr;
use precise_algebra::vector::Vector4;

#[test]
fn vector4_new() {
    let result = Vector4::new();
    let expected_result = Vector4 {
        data: [
            Expr::from(0),
            Expr::from(0),
            Expr::from(0),
            Expr::from(0),
        ]
    };

    assert_eq!(result, expected_result);
}

#[test]
fn vector4_from_expr() {
    let result = Vector4::from(Expr::from(3));
    let expected_result = Vector4 {
        data: [
            Expr::from(3),
            Expr::from(3),
            Expr::from(3),
            Expr::from(3),
        ]
    };

    assert_eq!(result, expected_result);
}

#[test]
fn vector4_from_i16() {
    let result = Vector4::from(3_i16);
    let expected_result = Vector4 {
        data: [
            Expr::from(3_i16),
            Expr::from(3_i16),
            Expr::from(3_i16),
            Expr::from(3_i16),
        ]
    };

    assert_eq!(result, expected_result);
}

#[test]
fn vector4_from_i32() {
    let result = Vector4::from(3_i32);
    let expected_result = Vector4 {
        data: [
            Expr::from(3_i32),
            Expr::from(3_i32),
            Expr::from(3_i32),
            Expr::from(3_i32),
        ]
    };

    assert_eq!(result, expected_result);
}

#[test]
fn from_expr_expr_expr_expr() {
    let result = Vector4::from((Expr::from(3), Expr::from(2), Expr::from(4), Expr::from(1)));
    let expected_result = Vector4 {
        data: [
            Expr::from(3),
            Expr::from(2),
            Expr::from(4),
            Expr::from(1),
        ]
    };

    assert_eq!(result, expected_result);
}

#[test]
fn from_i16_i16_i16_i16() {
    let result = Vector4::from((3_i16, 2_i16, 4_i16, 1_i16));
    let expected_result = Vector4 {
        data: [
            Expr::from(3_i16),
            Expr::from(2_i16),
            Expr::from(4_i16),
            Expr::from(1_i16),
        ]
    };

    assert_eq!(result, expected_result);
}

#[test]
fn from_i32_i32_i32_i32() {
    let result = Vector4::from((3_i32, 2_i32, 4_i32, 1_i32));
    let expected_result = Vector4 {
        data: [
            Expr::from(3_i32),
            Expr::from(2_i32),
            Expr::from(4_i32),
            Expr::from(1_i32),
        ]
    };

    assert_eq!(result, expected_result);
}

#[test]
fn vector4_x() {
    let result = Vector4::from((4, 3, 1, 2)).x().clone();
    let expected_result = Expr::from(4);

    assert_eq!(result, expected_result);
}

#[test]
fn vector4_x_mut() {
    let result = Vector4::from((4, 3, 1, 2)).x_mut().clone();
    let expected_result = Expr::from(4);

    assert_eq!(result, expected_result);
}

#[test]
fn vector4_y() {
    let result = Vector4::from((4, 3, 1, 2)).y().clone();
    let expected_result = Expr::from(3);

    assert_eq!(result, expected_result);
}

#[test]
fn vector4_y_mut() {
    let result = Vector4::from((4, 3, 1, 2)).y_mut().clone();
    let expected_result = Expr::from(3);

    assert_eq!(result, expected_result);
}

#[test]
fn vector4_z() {
    let result = Vector4::from((4, 3, 1, 2)).z().clone();
    let expected_result = Expr::from(1);

    assert_eq!(result, expected_result);
}

#[test]
fn vector4_z_mut() {
    let result = Vector4::from((4, 3, 1, 2)).z_mut().clone();
    let expected_result = Expr::from(1);

    assert_eq!(result, expected_result);
}

#[test]
fn w() {
    let result = Vector4::from((4, 3, 1, 2)).w().clone();
    let expected_result = Expr::from(2);

    assert_eq!(result, expected_result);
}

#[test]
fn w_mut() {
    let result = Vector4::from((4, 3, 1, 2)).w_mut().clone();
    let expected_result = Expr::from(2);

    assert_eq!(result, expected_result);
}

#[test]
fn vector4_add() {
    let result = Vector4::from((4, 5, 2, 1)) + Vector4::from(2);
    let expected_result = Vector4::from((6, 7, 4, 3));

    assert_eq!(result, expected_result);
}

#[test]
fn vector4_sub() {
    let result = Vector4::from((4, 5, 2, 1)) - Vector4::from(2);
    let expected_result = Vector4::from((2, 3, 0, -1));

    assert_eq!(result, expected_result);

}

#[test]
fn vector4_dot() {
    let result = Vector4::from((4, 5, 2, 1)) * Vector4::from(2);
    let expected_result = 24;

    assert_eq!(result, expected_result);
}

#[test]
fn vector4_component() {
    let result = Vector4::from((4, 5, 2, 1)).component(Vector4::from((2, 4, 3, 5)));
    let expected_result = Vector4::from((8, 20, 6, 5));

    assert_eq!(result, expected_result);
}

#[test]
fn vector4_scale_expr() {
    let result = Vector4::from((4, 5, 2, 1)) * Expr::from(2);
    let expected_result = Vector4::from((8, 10, 4, 2));

    assert_eq!(result, expected_result);
}

#[test]
fn vector4_scale_i16() {
    let result = Vector4::from((4, 5, 2, 1)) * 2_i16;
    let expected_result = Vector4::from((8, 10, 4, 2));

    assert_eq!(result, expected_result);
}

#[test]
fn vector4_scale_i32() {
    let result = Vector4::from((4, 5, 2, 1)) * 2_i32;
    let expected_result = Vector4::from((8, 10, 4, 2));

    assert_eq!(result, expected_result);
}


#[test]
fn vector4_index() {
    let vector = Vector4::from((4, 5, 2, 1));

    let result1 = &vector[0];
    let result2 = &vector[1];
    let result3 = &vector[2];
    let result4 = &vector[3];
    
    let expected_result1 = Expr::from(4);
    let expected_result2 = Expr::from(5);
    let expected_result3 = Expr::from(2);
    let expected_result4 = Expr::from(1);

    assert_eq!(*result1, expected_result1);
    assert_eq!(*result2, expected_result2);
    assert_eq!(*result3, expected_result3);
    assert_eq!(*result4, expected_result4);
}

#[test]
#[allow(unused_mut)]
fn vector4_index_mut() {
    let vector = Vector4::from((4, 5, 2, 1));

    let mut result1 = &vector[0];
    let mut result2 = &vector[1];
    let mut result3 = &vector[2];
    let mut result4 = &vector[3];
    
    let expected_result1 = Expr::from(4);
    let expected_result2 = Expr::from(5);
    let expected_result3 = Expr::from(2);
    let expected_result4 = Expr::from(1);

    assert_eq!(*result1, expected_result1);
    assert_eq!(*result2, expected_result2);
    assert_eq!(*result3, expected_result3);
    assert_eq!(*result4, expected_result4);
}
