use cao_math::{Vec2, Vec3};

#[test]
fn vec2_arithmetic() {
    let a = Vec2::new(1, 2);
    let b = Vec2::new(3, -4);
    assert_eq!(a.dot(&b), -5);
    assert_eq!(a.add(&b), Vec2::new(4, -2));
    assert_eq!(a.sub(&b), Vec2::new(-2, 6));
    assert_eq!(a.mul(3), Vec2::new(3, 6));
    assert_eq!(b.len_sq(), 25);
    assert_eq!(b.transponent(), Vec2::new(-4, 3));
    assert_eq!(a.get(1), 2);
}

#[test]
fn vec2_dot_of_extremes() {
    let a = Vec2::new(i32::MIN, i32::MIN);
    assert_eq!(a.dot(&Vec2::new(i32::MIN, 0)), 1i64 << 62);
}

#[test]
fn vec2_orient2d_sign() {
    let a = Vec2::new(0, 0);
    let b = Vec2::new(1, 0);
    assert_eq!(Vec2::orient2d(&a, &b, &Vec2::new(0, 1)), 1);
    assert_eq!(Vec2::orient2d(&a, &b, &Vec2::new(0, -1)), -1);
    assert_eq!(Vec2::orient2d(&a, &b, &Vec2::new(5, 0)), 0);
    assert_eq!(Vec2::orient2d(&a, &Vec2::new(4, 0), &Vec2::new(0, 3)), 12);
}

#[test]
fn vec2_conversions_and_swap() {
    let mut a = Vec2::new(1, 2);
    let mut b = Vec2::new(5, 6);
    assert_eq!(a.to_3d_vector(), Vec3::new(1, 2, 0));
    assert_eq!(a.extend(Some(1)), Vec3::new(1, 2, 1));
    assert_eq!(a.extend(None), Vec3::new(1, 2, 0));
    a.swap(&mut b);
    assert_eq!(a, Vec2::new(5, 6));
    assert_eq!(b, Vec2::new(1, 2));
    a.set(0, 9);
    assert_eq!(a, Vec2::new(9, 6));
}

#[test]
fn vec3_arithmetic() {
    let u = Vec3::new(1, 0, 0);
    let v = Vec3::new(0, 1, 0);
    let w = Vec3::new(0, 0, 1);
    assert_eq!(u.cross(&v), w);
    assert_eq!(v.cross(&u), Vec3::new(0, 0, -1));
    assert_eq!(Vec3::scalar_triple(&u, &v, &w), 1);
    assert_eq!(Vec3::scalar_triple(&v, &u, &w), -1);
    let a = Vec3::new(1, 2, 3);
    let b = Vec3::new(-4, 5, 6);
    assert_eq!(a.dot(&b), 24);
    assert_eq!(a.add(&b), Vec3::new(-3, 7, 9));
    assert_eq!(a.sub(&b), Vec3::new(5, -3, -3));
    assert_eq!(a.mul(-2), Vec3::new(-2, -4, -6));
    assert_eq!(a.len_sq(), 14);
    assert_eq!(a.cross(&b), Vec3::new(-3, -18, 13));
}

#[test]
fn vec3_components() {
    let mut a = Vec3::new(1, 2, 3);
    let mut b = Vec3::new(7, 8, 9);
    assert_eq!(a.get(2), 3);
    a.set(1, -5);
    assert_eq!(a, Vec3::new(1, -5, 3));
    a.swap(&mut b);
    assert_eq!(a, Vec3::new(7, 8, 9));
    assert_eq!(b, Vec3::new(1, -5, 3));
}
