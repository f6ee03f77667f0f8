use cao_math::{Mat2f, Mat3f, UpperMatrix, UpperMatrixError, Vec2, Vec3};

fn mat3(x: (i32, i32, i32), y: (i32, i32, i32), w: (i32, i32, i32)) -> Mat3f {
    Mat3f {
        x_axis: Vec3::new(x.0, x.1, x.2),
        y_axis: Vec3::new(y.0, y.1, y.2),
        w_axis: Vec3::new(w.0, w.1, w.2),
    }
}

#[test]
fn basic_right_prod_2by2() {
    let mut mat = Mat2f::default();
    mat.set(0, 0, 2);
    mat.set(1, 0, 1);
    mat.set(0, 1, 0);
    mat.set(1, 1, 3);

    let res = mat.right_prod(Vec2::new(1, 2));

    assert_eq!(res, Vec2::new(4, 6));
}

#[test]
fn basic_left_prod_2by2() {
    let mut mat = Mat2f::default();
    mat.set(0, 0, 2);
    mat.set(1, 0, 1);
    mat.set(0, 1, 0);
    mat.set(1, 1, 3);

    let res = mat.left_prod(Vec2::new(1, 2));

    assert_eq!(res, Vec2::new(2, 7));
}

#[test]
fn scale_right_prod_2by2() {
    let res = Mat2f::scale(2).right_prod(Vec2::new(1, 2));
    assert_eq!(res, Vec2::new(2, 4));
}

#[test]
fn mat2_at_follows_columns() {
    let m = Mat2f { x_axis: Vec2::new(1, 2), y_axis: Vec2::new(3, 4) };
    assert_eq!(m.at(0, 0), 1);
    assert_eq!(m.at(0, 1), 2);
    assert_eq!(m.at(1, 0), 3);
    assert_eq!(m.at(1, 1), 4);
    assert_eq!(m.axis(1), Vec2::new(3, 4));
    assert_eq!(m.transposed(), Mat2f { x_axis: Vec2::new(1, 3), y_axis: Vec2::new(2, 4) });
}

#[test]
fn mat2_det_and_mat_mul() {
    let a = Mat2f { x_axis: Vec2::new(1, 2), y_axis: Vec2::new(3, 4) };
    let b = Mat2f { x_axis: Vec2::new(5, 6), y_axis: Vec2::new(7, 8) };
    assert_eq!(a.det(), -2);
    // column 0 of a * b is a * (5, 6) = 5 * (1, 2) + 6 * (3, 4)
    let c = a.mat_mul(&b);
    assert_eq!(c, Mat2f { x_axis: Vec2::new(23, 34), y_axis: Vec2::new(31, 46) });
    assert_eq!(a.mat_mul(&Mat2f::identity()), a);
}

#[test]
fn mat2_inverted_times_matrix_is_identity() {
    let m = Mat2f { x_axis: Vec2::new(2, 1), y_axis: Vec2::new(1, 1) };
    let (adj, det) = m.inverted().unwrap();
    assert_eq!(det, 1);
    assert_eq!(adj, Mat2f { x_axis: Vec2::new(1, -1), y_axis: Vec2::new(-1, 2) });
    assert_eq!(adj.mat_mul(&m), Mat2f::identity());
    assert_eq!(m.mat_mul(&adj), Mat2f::identity());
}

#[test]
fn mat2_inverted_scales_by_determinant() {
    let m = Mat2f { x_axis: Vec2::new(4, 1), y_axis: Vec2::new(2, 3) };
    let (adj, det) = m.inverted().unwrap();
    assert_eq!(det, 10);
    assert_eq!(adj.mat_mul(&m), Mat2f::scale(10));
}

#[test]
fn mat2_singular_has_no_inverse() {
    let m = Mat2f { x_axis: Vec2::new(2, 4), y_axis: Vec2::new(1, 2) };
    assert_eq!(m.det(), 0);
    assert!(m.inverted().is_none());
    assert!(Mat2f::new().inverted().is_none());
}

#[test]
fn mat2_almost_equal_is_strict() {
    let a = Mat2f::identity();
    assert!(a.almost_equal(&Mat2f::scale(1), 1));
    assert!(!a.almost_equal(&Mat2f::scale(2), 1));
    assert!(a.almost_equal(&Mat2f::scale(2), 2));
    assert!(!a.almost_equal(&a, 0));
}

#[test]
fn mat2_to_mat3_defaults_and_overrides() {
    let m = Mat2f { x_axis: Vec2::new(1, 2), y_axis: Vec2::new(3, 4) };
    assert_eq!(m.to_mat3(None, None), mat3((1, 2, 0), (3, 4, 0), (0, 0, 1)));
    assert_eq!(
        m.to_mat3(Some(Vec3::new(7, 8, 9)), Some(Vec2::new(5, 6))),
        mat3((1, 2, 5), (3, 4, 6), (7, 8, 9))
    );
}

#[test]
fn mat2_entrywise_ops_and_swap() {
    let mut a = Mat2f { x_axis: Vec2::new(1, 2), y_axis: Vec2::new(3, 4) };
    let mut b = Mat2f::scale(5);
    assert_eq!(a.add(&b), Mat2f { x_axis: Vec2::new(6, 2), y_axis: Vec2::new(3, 9) });
    assert_eq!(a.sub(&b), Mat2f { x_axis: Vec2::new(-4, 2), y_axis: Vec2::new(3, -1) });
    assert_eq!(a.scalar_mul(3), Mat2f { x_axis: Vec2::new(3, 6), y_axis: Vec2::new(9, 12) });
    a.swap(&mut b);
    assert_eq!(a, Mat2f::scale(5));
    assert_eq!(b.at(1, 1), 4);
}

#[test]
fn basic_left_prod_3by3() {
    let mut mat = Mat3f::scale(1);
    mat.set(1, 0, 2);
    let res = mat.left_prod(&Vec3::new(1, 2, 3));
    assert_eq!(res, Vec3::new(1, 4, 3));
}

#[test]
fn basic_right_prod_3by3() {
    let mut mat = Mat3f::scale(1);
    mat.set(1, 0, 2);
    let res = mat.right_prod(&Vec3::new(1, 2, 3));
    assert_eq!(res, Vec3::new(5, 2, 3));
}

#[test]
fn basic_mat_mat_3_ab() {
    let a = mat3((1, 2, 3), (1, 2, 3), (1, 2, 3));
    let b = mat3((5, 6, 7), (5, 6, 7), (5, 6, 7));
    let c = a.mat_mul(&b);
    assert_eq!(c, mat3((18, 36, 54), (18, 36, 54), (18, 36, 54)));
}

#[test]
fn basic_mat_mat_3_ba() {
    let a = mat3((5, 6, 7), (5, 6, 7), (5, 6, 7));
    let b = mat3((1, 2, 3), (1, 2, 3), (1, 2, 3));
    let c = a.mat_mul(&b);
    assert_eq!(c, mat3((30, 36, 42), (30, 36, 42), (30, 36, 42)));
}

#[test]
fn translation_moves_homogeneous_point() {
    let a = Mat3f::translate(Vec2::new(1, 2));
    let res = a.right_prod(&Vec3::new(0, 0, 1));
    assert_eq!(res, Vec3::new(1, 2, 1));
    assert_eq!(a.right_prod(&Vec3::new(4, -3, 1)), Vec3::new(5, -1, 1));
}

#[test]
fn translate_then_scale_3by3() {
    let c = Mat3f::translate(Vec2::new(5, 6)).mat_mul(&Mat3f::scale(8));
    assert_eq!(c, mat3((8, 0, 0), (0, 8, 0), (5, 6, 1)));
}

#[test]
fn determinant_3by3() {
    let a = mat3((6, 4, 2), (1, -2, 8), (1, 5, 7));
    assert_eq!(a.det(), -306);
    assert_eq!(Vec3::scalar_triple(&a.x_axis, &a.y_axis, &a.w_axis), -306);
}

#[test]
fn mat3_inverted_times_matrix_is_identity() {
    let m = mat3((2, 0, 0), (0, 3, 0), (1, 0, 1));
    let (adj, det) = m.inverted().unwrap();
    assert_eq!(det, 6);
    let mut six = Mat3f::scale(6);
    six.set(2, 2, 6);
    assert_eq!(adj.mat_mul(&m), six);
    assert_eq!(m.mat_mul(&adj), six);

    let u = mat3((6, 4, 2), (1, -2, 8), (1, 5, 7));
    let (adj, det) = u.inverted().unwrap();
    assert_eq!(det, -306);
    let mut minus = Mat3f::scale(-306);
    minus.set(2, 2, -306);
    assert_eq!(adj.mat_mul(&u), minus);
}

#[test]
fn mat3_singular_has_no_inverse() {
    let m = mat3((1, 2, 3), (2, 4, 6), (0, 0, 1));
    assert_eq!(m.det(), 0);
    assert!(m.inverted().is_none());
}

#[test]
fn mat3_accessors() {
    let mut m = mat3((1, 2, 3), (4, 5, 6), (7, 8, 9));
    assert_eq!(m.as_list(), vec![1, 2, 3, 4, 5, 6, 7, 8, 9]);
    assert_eq!(m.at(2, 1), 8);
    assert_eq!(m.axis(1), Vec3::new(4, 5, 6));
    assert_eq!(*m.axis_ref(2), Vec3::new(7, 8, 9));
    assert_eq!(m.x_axis(), Vec3::new(1, 2, 3));
    assert_eq!(m.y_axis(), Vec3::new(4, 5, 6));
    assert_eq!(m.w_axis(), Vec3::new(7, 8, 9));
    assert_eq!(m.transposed(), mat3((1, 4, 7), (2, 5, 8), (3, 6, 9)));
    m.set(0, 2, -1);
    assert_eq!(m.x_axis, Vec3::new(1, 2, -1));
    assert_eq!(Mat3f::new(), Mat3f::default());
    assert_eq!(Mat3f::identity(), Mat3f::scale(1));
}

#[test]
fn mat3_entrywise_ops() {
    let a = mat3((1, 2, 3), (4, 5, 6), (7, 8, 9));
    let b = Mat3f::identity();
    assert_eq!(a.add(&b), mat3((2, 2, 3), (4, 6, 6), (7, 8, 10)));
    assert_eq!(a.sub(&b), mat3((0, 2, 3), (4, 4, 6), (7, 8, 8)));
    assert_eq!(a.scalar_mul(-2), mat3((-2, -4, -6), (-8, -10, -12), (-14, -16, -18)));
}

#[test]
fn upper_translation() {
    let a = UpperMatrix::translate([1, 2]);
    let res = a.right_prod([0, 0, 1]);
    assert_eq!(res, [1, 2, 1]);
}

#[test]
fn test_matrix_conversion() {
    let mut a = UpperMatrix::default();
    a.set(0, 0, 1);
    a.set(1, 0, 2);
    a.set(2, 0, 3);
    a.set(1, 1, 4);
    a.set(2, 1, 5);
    a.set(2, 2, 6);

    let b = UpperMatrix::from_mat(&mat3((1, 0, 0), (2, 4, 0), (3, 5, 6))).unwrap();

    assert_eq!(a, b);
    assert_eq!(b.at(2, 1), 5);
    assert_ne!(a, UpperMatrix::scale(1));
}

#[test]
fn upper_rejects_lower_entries() {
    let m = mat3((1, 0, 1), (2, 4, 0), (3, 5, 6));
    assert!(matches!(UpperMatrix::from_mat(&m), Err(UpperMatrixError::MatrixNotTriangle)));
    let m = mat3((1, 0, 0), (2, 4, 7), (3, 5, 6));
    assert!(matches!(UpperMatrix::from_mat(&m), Err(UpperMatrixError::MatrixNotTriangle)));
}

#[test]
fn upper_mat_mul_and_scale() {
    let a = UpperMatrix::from_mat(&mat3((1, 0, 0), (2, 4, 0), (3, 5, 6))).unwrap();
    let b = UpperMatrix::translate([1, 2]);
    let mut c = UpperMatrix::default();
    a.mat_mul(&b, &mut c);
    assert_eq!(c.values, ([1, 2, 8], [4, 13], [6]));
    assert_eq!(UpperMatrix::scale(3).values, ([3, 0, 0], [3, 0], [3]));
    assert_eq!(a.scalar_mul(2).values, ([2, 4, 6], [8, 10], [12]));
    let mut d = UpperMatrix::scale(1);
    d.swap(&mut c);
    assert_eq!(d.values, ([1, 2, 8], [4, 13], [6]));
}

#[test]
fn matrices_from_column_arrays() {
    let m = Mat3f::from([[1, 2, 3], [4, 5, 6], [7, 8, 9]]);
    assert_eq!(m, mat3((1, 2, 3), (4, 5, 6), (7, 8, 9)));
    let n = Mat2f::from([[1, 2], [3, 4]]);
    assert_eq!(n, Mat2f { x_axis: Vec2::new(1, 2), y_axis: Vec2::new(3, 4) });
    assert_eq!(Vec2::from([5, 6]), Vec2::new(5, 6));
    assert_eq!(Vec3::from([5, 6, 7]), Vec3::new(5, 6, 7));
}

#[test]
fn mutable_entry_references() {
    let mut m = Mat2f::default();
    *m.at_mut(1, 0) = 7;
    m.axis_mut(0).y = 3;
    assert_eq!(m, Mat2f { x_axis: Vec2::new(0, 3), y_axis: Vec2::new(7, 0) });

    let mut n = Mat3f::default();
    *n.at_mut(2, 1) = 4;
    n.axis_mut(0).z = -2;
    assert_eq!(n, mat3((0, 0, -2), (0, 0, 0), (0, 4, 0)));

    let mut u = UpperMatrix::scale(1);
    *u.at_mut(2, 0) = 9;
    assert_eq!(u.values, ([1, 0, 9], [1, 0], [1]));
}

#[test]
fn determinants_of_extreme_entries() {
    let m = Mat2f { x_axis: Vec2::new(i32::MIN, i32::MAX), y_axis: Vec2::new(i32::MIN, i32::MIN) };
    let want = (i32::MIN as i64) * (i32::MIN as i64) - (i32::MAX as i64) * (i32::MIN as i64);
    assert_eq!(m.det(), want);
    assert!(!m.inverse_fits());

    let big = Mat3f::scale(i32::MAX);
    let mut big = big;
    big.set(2, 2, i32::MAX);
    let d = (i32::MAX as i128) * (i32::MAX as i128) * (i32::MAX as i128);
    assert_eq!(big.det(), d);
    assert!(!big.inverse_fits());
    assert!(Mat3f::identity().inverse_fits());
    assert!(Mat3f::new().inverse_fits());
}
