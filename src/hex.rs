//! Hex-grid coordinates: cube and axial forms, distance, rounding and lines.
//!
//! A cell in cube form is a triple `(x, y, z)` with `x + y + z == 0`; its axial
//! form is the pair `(x, z)`. Fractional positions, such as the points of a
//! line between two cells, are written as integer numerators over a common
//! positive denominator.
use vstd::arithmetic::div_mod::{
    lemma_fundamental_div_mod,
    lemma_fundamental_div_mod_converse,
    lemma_mod_bound,
};
use vstd::prelude::*;

use crate::bulk::Tensor3f;
use crate::num::{abs, fits_i32, mul_i64};
use crate::vec2::{fits_i32_pair, Vec2};
use crate::vec3::{fits_i32_triple, Vec3};

verus! {

/// The axial form `(x, z)` of the cube coordinate `c`.
pub open spec fn cube_to_axial_spec(c: (int, int, int)) -> (int, int) {
    (c.0, c.2)
}

/// The cube form `(q, -q - r, r)` of the axial coordinate `(q, r)`.
pub open spec fn axial_to_cube_spec(p: (int, int)) -> (int, int, int) {
    (p.0, -p.0 - p.1, p.1)
}

/// The largest of three integers.
pub open spec fn max3(a: int, b: int, c: int) -> int {
    if a >= b && a >= c {
        a
    } else if b >= c {
        b
    } else {
        c
    }
}

/// The hex distance between two cube coordinates: the largest difference of
/// matching components.
pub open spec fn cube_distance_spec(a: (int, int, int), b: (int, int, int)) -> int {
    max3(abs(a.0 - b.0), abs(a.1 - b.1), abs(a.2 - b.2))
}

/// `n / d` rounded to the nearest integer, halves away from zero (`d > 0`).
pub open spec fn round_div(n: int, d: int) -> int {
    if n >= 0 {
        (2 * n + d) / (2 * d)
    } else {
        -((-2 * n + d) / (2 * d))
    }
}

/// The cell nearest to the axial position `(q / d, r / d)`.
///
/// Each cube component is rounded on its own; then the component that moved
/// the most is recomputed from the other two, so that the three sum to zero.
/// Where `x` moved strictly more than both others, `x` is recomputed; else,
/// where `y` moved no more than `z`, `z` is recomputed; else `y` moved the
/// most, and the axial form, which leaves `y` out, needs no change.
pub open spec fn round_axial_spec(q: int, r: int, d: int) -> (int, int) {
    let y = -q - r;
    let (rx, ry, rz) = (round_div(q, d), round_div(y, d), round_div(r, d));
    let (dx, dy, dz) = (abs(rx * d - q), abs(ry * d - y), abs(rz * d - r));
    if dx > dy && dx > dz {
        (-ry - rz, rz)
    } else if dy <= dz {
        (rx, -rx - ry)
    } else {
        (rx, rz)
    }
}

/// The numerators, over `den`, of the point `a + (b - a) * num / den`.
pub open spec fn lerp_spec(a: (int, int, int), b: (int, int, int), num: int, den: int) -> (
    int,
    int,
    int,
) {
    (
        a.0 * den + (b.0 - a.0) * num,
        a.1 * den + (b.1 - a.1) * num,
        a.2 * den + (b.2 - a.2) * num,
    )
}

/// Converts a point on the hex grid from cube to axial form.
pub fn cube_to_axial(cube: &Vec3) -> (r: Vec2)
    ensures
        r@ == cube_to_axial_spec(cube@),
{
    Vec2 { x: cube.x, y: cube.z }
}

/// Converts a point on the hex grid from axial to cube form.
pub fn axial_to_cube(axial: &Vec2) -> (r: Vec3)
    requires
        fits_i32(-axial.x - axial.y),
    ensures
        r@ == axial_to_cube_spec(axial@),
{
    let y = -(axial.x as i64) - (axial.y as i64);
    Vec3 { x: axial.x, y: y as i32, z: axial.y }
}

/// The hex distance between two cells in cube form.
pub fn cube_distance(a: &Vec3, b: &Vec3) -> (r: u32)
    ensures
        r == cube_distance_spec(a@, b@),
{
    let x = abs_i64((a.x as i64) - (b.x as i64));
    let y = abs_i64((a.y as i64) - (b.y as i64));
    let z = abs_i64((a.z as i64) - (b.z as i64));
    let m = if x >= y && x >= z {
        x
    } else if y >= z {
        y
    } else {
        z
    };
    m as u32
}

fn abs_i64(v: i64) -> (r: i64)
    requires
        v > i64::MIN,
    ensures
        r == abs(v as int),
{
    if v < 0 {
        -v
    } else {
        v
    }
}

/// `n / d` rounded to the nearest integer, halves away from zero.
fn round_div_exec(n: i64, d: i64) -> (r: i64)
    requires
        0 < d <= i32::MAX,
        -0x2_0000_0000 <= n <= 0x2_0000_0000,
    ensures
        r == round_div(n as int, d as int),
        -0x2_0000_0000 <= r <= 0x2_0000_0000,
{
    proof {
        lemma_round_div_bound(n as int, d as int);
    }
    if n >= 0 {
        (2 * n + d) / (2 * d)
    } else {
        -((-2 * n + d) / (2 * d))
    }
}

proof fn lemma_round_div_bound(n: int, d: int)
    requires
        0 < d,
        -0x2_0000_0000 <= n <= 0x2_0000_0000,
    ensures
        -0x2_0000_0000 <= round_div(n, d) <= 0x2_0000_0000,
{
    if n >= 0 {
        assert((2 * n + d) / (2 * d) <= 0x2_0000_0000) by (nonlinear_arith)
            requires
                0 < d,
                0 <= n <= 0x2_0000_0000,
        ;
        assert((2 * n + d) / (2 * d) >= 0) by (nonlinear_arith)
            requires
                0 < d,
                0 <= n,
        ;
    } else {
        assert((-2 * n + d) / (2 * d) <= 0x2_0000_0000) by (nonlinear_arith)
            requires
                0 < d,
                -0x2_0000_0000 <= n < 0,
        ;
        assert((-2 * n + d) / (2 * d) >= 0) by (nonlinear_arith)
            requires
                0 < d,
                n < 0,
        ;
    }
}

/// Rounding moves `n / d` by at most one half.
proof fn lemma_round_div_close(n: int, d: int)
    requires
        d > 0,
    ensures
        -d <= 2 * (round_div(n, d) * d - n) <= d,
{
    if n >= 0 {
        let k = (2 * n + d) / (2 * d);
        lemma_fundamental_div_mod(2 * n + d, 2 * d);
        lemma_mod_bound(2 * n + d, 2 * d);
        assert((2 * d) * k == 2 * (k * d)) by (nonlinear_arith);
    } else {
        let k = (-2 * n + d) / (2 * d);
        lemma_fundamental_div_mod(-2 * n + d, 2 * d);
        lemma_mod_bound(-2 * n + d, 2 * d);
        assert((2 * d) * k == 2 * (k * d)) by (nonlinear_arith);
        assert((-k) * d == -(k * d)) by (nonlinear_arith);
    }
}

/// A value within one step `d` of `n / d`, for `d >= 2` and `n` in the range
/// of an `i32`, is itself in the range of an `i32`.
proof fn lemma_near_quotient_fits(v: int, n: int, d: int)
    requires
        d >= 2,
        fits_i32(n),
        -2 * d <= 2 * (v * d - n) <= 2 * d,
    ensures
        fits_i32(v),
{
    assert(v <= 0x4000_0001) by (nonlinear_arith)
        requires
            d >= 2,
            n <= 0x7fff_ffff,
            v * d - n <= d,
    ;
    assert(v >= -0x4000_0001) by (nonlinear_arith)
        requires
            d >= 2,
            n >= -0x8000_0000,
            v * d - n >= -d,
    ;
}

/// Rounding an axial position whose numerators are `i32` values gives a cell
/// whose coordinates are `i32` values.
proof fn lemma_round_axial_fits(q: int, r: int, d: int)
    requires
        d > 0,
        fits_i32(q),
        fits_i32(r),
    ensures
        fits_i32_pair(round_axial_spec(q, r, d)),
{
    let y = -q - r;
    let (rx, ry, rz) = (round_div(q, d), round_div(y, d), round_div(r, d));
    lemma_round_div_close(q, d);
    lemma_round_div_close(y, d);
    lemma_round_div_close(r, d);
    if d == 1 {
        assert(rx == q && ry == y && rz == r);
    } else {
        lemma_near_quotient_fits(rx, q, d);
        lemma_near_quotient_fits(rz, r, d);
        assert((-ry - rz) * d - q == -(ry * d - y) - (rz * d - r)) by (nonlinear_arith)
            requires
                y == -q - r,
        ;
        assert((-rx - ry) * d - r == -(rx * d - q) - (ry * d - y)) by (nonlinear_arith)
            requires
                y == -q - r,
        ;
        lemma_near_quotient_fits(-ry - rz, q, d);
        lemma_near_quotient_fits(-rx - ry, r, d);
    }
}

/// Rounds the axial position `(axial.x / den, axial.y / den)` to the nearest
/// cell, with the tie-breaks of `round_axial_spec`.
pub fn round_to_nearest_axial(axial: &Vec2, den: i32) -> (r: Vec2)
    requires
        den > 0,
    ensures
        r@ == round_axial_spec(axial.x as int, axial.y as int, den as int),
{
    proof {
        lemma_round_axial_fits(axial.x as int, axial.y as int, den as int);
    }
    let d = den as i64;
    let x = axial.x as i64;
    let z = axial.y as i64;
    let y = -x - z;
    let rx = round_div_exec(x, d);
    let ry = round_div_exec(y, d);
    let rz = round_div_exec(z, d);
    let dx = abs_i128(mul_i64(rx, d) - (x as i128));
    let dy = abs_i128(mul_i64(ry, d) - (y as i128));
    let dz = abs_i128(mul_i64(rz, d) - (z as i128));
    if dx > dy && dx > dz {
        Vec2 { x: (-ry - rz) as i32, y: rz as i32 }
    } else if dy <= dz {
        Vec2 { x: rx as i32, y: (-rx - ry) as i32 }
    } else {
        Vec2 { x: rx as i32, y: rz as i32 }
    }
}

fn abs_i128(v: i128) -> (r: i128)
    requires
        v > i128::MIN,
    ensures
        r == abs(v as int),
{
    if v < 0 {
        -v
    } else {
        v
    }
}

/// The point `a + (b - a) * num / den`, as numerators over `den`.
pub fn cube_lerp(a: &Vec3, b: &Vec3, num: i64, den: i64) -> (r: Vec3)
    requires
        fits_i32_triple(lerp_spec(a@, b@, num as int, den as int)),
    ensures
        r@ == lerp_spec(a@, b@, num as int, den as int),
{
    Vec3 {
        x: lerp_component(a.x, b.x, num, den),
        y: lerp_component(a.y, b.y, num, den),
        z: lerp_component(a.z, b.z, num, den),
    }
}

fn lerp_component(a: i32, b: i32, num: i64, den: i64) -> (r: i32)
    requires
        fits_i32(a * den + (b - a) * num),
    ensures
        r == a * den + (b - a) * num,
{
    let v = mul_i64(a as i64, den) + mul_i64((b as i64) - (a as i64), num);
    v as i32
}

/// The points that a line from `a` to `b` passes through: with `n` the hex
/// distance from `a` to `b`, the `n` points `a + (b - a) * i / n` for `i` in
/// `0..n`, as numerators over `n`. `a` is the first; `b` is left out.
pub fn cube_line_points(a: &Vec3, b: &Vec3) -> (r: Tensor3f)
    requires
        forall|i: int|
            0 <= i < cube_distance_spec(a@, b@) ==> fits_i32_triple(
                #[trigger] lerp_spec(a@, b@, i, cube_distance_spec(a@, b@)),
            ),
    ensures
        r.data@.len() == cube_distance_spec(a@, b@),
        forall|i: int|
            0 <= i < r.data@.len() ==> #[trigger] r.data@[i]@ == lerp_spec(
                a@,
                b@,
                i,
                cube_distance_spec(a@, b@),
            ),
{
    let n = cube_distance(a, b) as i64;
    let mut data: Vec<Vec3> = Vec::new();
    let mut i: i64 = 0;
    while i < n
        invariant
            n == cube_distance_spec(a@, b@),
            0 <= i <= n,
            data@.len() == i,
            forall|j: int| 0 <= j < i ==> #[trigger] data@[j]@ == lerp_spec(a@, b@, j, n as int),
            forall|j: int| 0 <= j < n ==> fits_i32_triple(#[trigger] lerp_spec(a@, b@, j, n as int)),
        decreases n - i,
    {
        data.push(cube_lerp(a, b, i, n));
        i += 1;
    }
    Tensor3f { data }
}

/// The points strictly between `a` and `b` on the line from `a` to `b`: with
/// `n` the hex distance from `a` to `b`, the points `a + (b - a) * i / n` for
/// `i` in `1..n`, as numerators over `n`.
pub fn cube_segment_points(a: &Vec3, b: &Vec3) -> (r: Tensor3f)
    requires
        forall|i: int|
            0 < i < cube_distance_spec(a@, b@) ==> fits_i32_triple(
                #[trigger] lerp_spec(a@, b@, i, cube_distance_spec(a@, b@)),
            ),
    ensures
        r.data@.len() == (if cube_distance_spec(a@, b@) == 0 {
            0
        } else {
            cube_distance_spec(a@, b@) - 1
        }),
        forall|i: int|
            0 <= i < r.data@.len() ==> #[trigger] r.data@[i]@ == lerp_spec(
                a@,
                b@,
                i + 1,
                cube_distance_spec(a@, b@),
            ),
{
    let n = cube_distance(a, b) as i64;
    let mut data: Vec<Vec3> = Vec::new();
    let mut i: i64 = 1;
    while i < n
        invariant
            n == cube_distance_spec(a@, b@),
            0 <= n,
            1 <= i,
            i <= n || i == 1,
            data@.len() == i - 1,
            forall|j: int| 0 <= j < i - 1 ==> #[trigger] data@[j]@ == lerp_spec(a@, b@, j + 1, n as int),
            forall|j: int| 0 < j < n ==> fits_i32_triple(#[trigger] lerp_spec(a@, b@, j, n as int)),
        decreases n - i,
    {
        data.push(cube_lerp(a, b, i, n));
        i += 1;
    }
    Tensor3f { data }
}

/// Axial and cube forms convert into each other without loss: from axial to
/// cube and back gives the same axial coordinate, and from cube to axial and
/// back gives the same cube coordinate when its components sum to zero.
pub proof fn lemma_axial_cube_round_trip(p: (int, int), c: (int, int, int))
    requires
        c.0 + c.1 + c.2 == 0,
    ensures
        cube_to_axial_spec(axial_to_cube_spec(p)) == p,
        axial_to_cube_spec(cube_to_axial_spec(c)) == c,
{
}

/// The hex distance from a cell to itself is zero, and the distance from `a`
/// to `b` is the distance from `b` to `a`.
pub proof fn lemma_cube_distance_symmetric(a: (int, int, int), b: (int, int, int))
    ensures
        cube_distance_spec(a, a) == 0,
        cube_distance_spec(a, b) == cube_distance_spec(b, a),
{
}

/// An integer multiple of `d`, divided by `d` and rounded, is that integer.
proof fn lemma_round_div_exact(q: int, d: int)
    requires
        d > 0,
    ensures
        round_div(q * d, d) == q,
{
    if q >= 0 {
        assert(2 * (q * d) + d == q * (2 * d) + d) by (nonlinear_arith);
        assert(q * d >= 0) by (nonlinear_arith)
            requires
                q >= 0,
                d > 0,
        ;
        lemma_fundamental_div_mod_converse(2 * (q * d) + d, 2 * d, q, d);
    } else {
        assert(-2 * (q * d) + d == (-q) * (2 * d) + d) by (nonlinear_arith);
        assert(q * d < 0) by (nonlinear_arith)
            requires
                q < 0,
                d > 0,
        ;
        lemma_fundamental_div_mod_converse(-2 * (q * d) + d, 2 * d, -q, d);
    }
}

/// Rounding is the identity on cells: the axial position `(q, r)`, written
/// over any positive denominator `d`, rounds to `(q, r)` itself.
pub proof fn lemma_round_integer_axial(q: int, r: int, d: int)
    requires
        d > 0,
    ensures
        round_axial_spec(q * d, r * d, d) == (q, r),
{
    lemma_round_div_exact(q, d);
    lemma_round_div_exact(r, d);
    lemma_round_div_exact(-q - r, d);
    assert(-(q * d) - r * d == (-q - r) * d) by (nonlinear_arith);
}

} // verus!
