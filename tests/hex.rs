use cao_math::hex::{
    axial_to_cube, cube_distance, cube_lerp, cube_line_points, cube_segment_points, cube_to_axial,
    round_to_nearest_axial,
};
use cao_math::{Hexagon, Vec2, Vec3};

#[test]
fn axial_cube_round_trip() {
    let p = Vec2::new(3, -2);
    let c = axial_to_cube(&p);
    assert_eq!(c, Vec3::new(3, -1, -2));
    assert_eq!(cube_to_axial(&c), p);
    let c = Vec3::new(-4, 1, 3);
    assert_eq!(axial_to_cube(&cube_to_axial(&c)), c);
}

#[test]
fn cube_distance_is_symmetric() {
    let a = Vec3::new(0, 0, 0);
    let b = Vec3::new(3, -1, -2);
    assert_eq!(cube_distance(&a, &a), 0);
    assert_eq!(cube_distance(&a, &b), 3);
    assert_eq!(cube_distance(&b, &a), 3);
    assert_eq!(cube_distance(&Vec3::new(-2, 4, -2), &Vec3::new(1, -1, 0)), 5);
}

#[test]
fn cube_distance_of_extreme_cells() {
    let a = Vec3::new(i32::MIN, 0, 0);
    let b = Vec3::new(i32::MAX, 0, 0);
    assert_eq!(cube_distance(&a, &b), u32::MAX);
}

#[test]
fn round_integer_axial_is_unchanged() {
    assert_eq!(round_to_nearest_axial(&Vec2::new(3, -2), 1), Vec2::new(3, -2));
    assert_eq!(round_to_nearest_axial(&Vec2::new(30, -20), 10), Vec2::new(3, -2));
    assert_eq!(round_to_nearest_axial(&Vec2::new(-7, 0), 1), Vec2::new(-7, 0));
}

#[test]
fn round_fractional_axial() {
    // (0.4, 0.4): x and z tie for the largest error, so z is recomputed
    assert_eq!(round_to_nearest_axial(&Vec2::new(4, 4), 10), Vec2::new(0, 1));
    // (0.6, 0.1): x moved the most and is recomputed
    assert_eq!(round_to_nearest_axial(&Vec2::new(6, 1), 10), Vec2::new(1, 0));
    // (0.5, 0): halves round away from zero; y moved the most
    assert_eq!(round_to_nearest_axial(&Vec2::new(1, 0), 2), Vec2::new(1, 0));
    // (-0.5, 0)
    assert_eq!(round_to_nearest_axial(&Vec2::new(-1, 0), 2), Vec2::new(-1, 0));
    // (0.2, -0.7)
    assert_eq!(round_to_nearest_axial(&Vec2::new(2, -7), 10), Vec2::new(0, -1));
}

fn to_axial_over(v: f32, den: i32) -> i32 {
    (v * den as f32).round() as i32
}

#[test]
fn pixel_axial_round_trip_pointy() {
    const SQRT3: f32 = 1.732_050_8;
    const SIZE: f32 = 12.0;
    const DEN: i32 = 1 << 16;
    // axial (3, -2) to pixels, by the pointy-top matrix
    let (q, r) = (3.0f32, -2.0f32);
    let px = (SQRT3 * q + SQRT3 / 2.0 * r) * SIZE;
    let py = (1.5 * r) * SIZE;
    // and back, by its inverse
    let hq = (SQRT3 / 3.0 * px - py / 3.0) / SIZE;
    let hr = (2.0 / 3.0 * py) / SIZE;
    let axial = Vec2::new(to_axial_over(hq, DEN), to_axial_over(hr, DEN));
    assert_eq!(round_to_nearest_axial(&axial, DEN), Vec2::new(3, -2));

    let (px, py) = (3.14 * SIZE, -2.3 * SIZE);
    let hq = (SQRT3 / 3.0 * px - py / 3.0) / SIZE;
    let hr = (2.0 / 3.0 * py) / SIZE;
    let axial = Vec2::new(to_axial_over(hq, DEN), to_axial_over(hr, DEN));
    assert_eq!(round_to_nearest_axial(&axial, DEN), Vec2::new(3, -2));
}

#[test]
fn lerp_numerators() {
    let a = Vec3::new(0, 0, 0);
    let b = Vec3::new(2, -2, 0);
    assert_eq!(cube_lerp(&a, &b, 1, 2), Vec3::new(2, -2, 0));
    assert_eq!(cube_lerp(&a, &b, 0, 2), Vec3::new(0, 0, 0));
    assert_eq!(cube_lerp(&Vec3::new(1, 1, -2), &b, 1, 4), Vec3::new(5, 1, -6));
}

#[test]
fn line_points_include_start_only() {
    let a = Vec3::new(0, 0, 0);
    let b = Vec3::new(3, -3, 0);
    let line = cube_line_points(&a, &b);
    assert_eq!(line.data, vec![Vec3::new(0, 0, 0), Vec3::new(3, -3, 0), Vec3::new(6, -6, 0)]);
    assert!(cube_line_points(&a, &a).data.is_empty());
}

#[test]
fn segment_points_exclude_both_ends() {
    let a = Vec3::new(0, 0, 0);
    let b = Vec3::new(3, -3, 0);
    let seg = cube_segment_points(&a, &b);
    assert_eq!(seg.data, vec![Vec3::new(3, -3, 0), Vec3::new(6, -6, 0)]);
    assert!(cube_segment_points(&a, &a).data.is_empty());
    assert!(cube_segment_points(&a, &Vec3::new(1, -1, 0)).data.is_empty());
}

#[test]
fn hexagon_cell_count() {
    assert_eq!(Hexagon::from_radius(3).list_points().len(), 37);
    assert_eq!(Hexagon::from_radius(0).list_points().len(), 1);
    assert_eq!(Hexagon::from_radius(10).list_points().len(), 331);
    let mut h = Hexagon::new();
    assert!(h.with_radius(-1).list_points().is_empty());
}

#[test]
fn hexagon_lists_cells_column_by_column() {
    let pts = Hexagon::from_radius(1).list_points();
    let want = vec![
        Vec2::new(0, 2),
        Vec2::new(0, 1),
        Vec2::new(1, 2),
        Vec2::new(1, 1),
        Vec2::new(1, 0),
        Vec2::new(2, 1),
        Vec2::new(2, 0),
    ];
    assert_eq!(pts, want);
}

#[test]
fn hexagon_contains() {
    let h = Hexagon::from_radius(3);
    assert!(h.contains(&Vec2::new(3, 3)));
    assert!(h.contains(&Vec2::new(6, 3)));
    assert!(h.contains(&Vec2::new(6, 0)));
    assert!(!h.contains(&Vec2::new(7, 3)));
    assert!(!h.contains(&Vec2::new(6, 6)));
    for p in h.list_points() {
        assert!(h.contains(&p));
    }
}

#[test]
fn hexagon_builders() {
    let mut h = Hexagon::new();
    assert_eq!(h, Hexagon { center: Vec2::new(0, 0), radius: 0 });
    let r = h.with_center(&Vec2::new(2, 3));
    assert_eq!(r.center, Vec2::new(2, 3));
    let r = h.with_offset(&Vec2::new(-1, 1));
    assert_eq!(r.center, Vec2::new(1, 4));
    let r = h.with_radius(2);
    assert_eq!(r, Hexagon { center: Vec2::new(1, 4), radius: 2 });
    assert_eq!(h, r);
}
