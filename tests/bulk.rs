use cao_math::{Array2f, Mat2f, Mat3f, Tensor3f, Vec2, Vec3};

#[test]
fn array2_list_operations() {
    let mut a = Array2f::new();
    assert_eq!(a.len(), 0);
    a.push(Vec2::new(1, 2));
    a.extend(&vec![Vec2::new(3, 4), Vec2::new(5, 6)]);
    assert_eq!(a.len(), 3);
    assert_eq!(a.get(1), Vec2::new(3, 4));
    a.set(1, Vec2::new(-3, -4));
    assert_eq!(a.remove(0), Vec2::new(1, 2));
    assert_eq!(a.to_list(), vec![Vec2::new(-3, -4), Vec2::new(5, 6)]);
}

#[test]
fn array2_products_apply_to_every_vector() {
    let mut a = Array2f::new();
    a.extend(&vec![Vec2::new(1, 2), Vec2::new(-3, 4)]);
    let m = Mat2f { x_axis: Vec2::new(1, 2), y_axis: Vec2::new(3, 4) };
    let mut b = a.clone();
    a.right_prod(&m);
    assert_eq!(a.to_list(), vec![Vec2::new(7, 10), Vec2::new(9, 10)]);
    b.left_prod(&m);
    assert_eq!(b.to_list(), vec![Vec2::new(5, 11), Vec2::new(5, 7)]);
}

#[test]
fn tensor3_products_apply_to_every_vector() {
    let mut t = Tensor3f::new();
    t.push(Vec3::new(0, 0, 1));
    t.push(Vec3::new(2, 3, 1));
    let mut u = t.clone();
    t.right_prod(&Mat3f::translate(Vec2::new(5, 6)));
    assert_eq!(t.to_list(), vec![Vec3::new(5, 6, 1), Vec3::new(7, 9, 1)]);
    u.left_prod(&Mat3f::translate(Vec2::new(5, 6)));
    assert_eq!(u.to_list(), vec![Vec3::new(0, 0, 1), Vec3::new(2, 3, 29)]);
    assert_eq!(u.len(), 2);
    assert_eq!(u.remove(1), Vec3::new(2, 3, 29));
    u.set(0, Vec3::new(1, 1, 1));
    assert_eq!(u.get(0), Vec3::new(1, 1, 1));
    u.extend(&vec![Vec3::new(4, 4, 4)]);
    assert_eq!(u.len(), 2);
}
