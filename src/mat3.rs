//! Three by three integer matrices, stored by column.
use vstd::prelude::*;

use crate::num::{fits_i32, mul_i32, mul_i32_i64};
use crate::vec2::Vec2;
use crate::vec3::{cross3, dot3, fits_i32_triple, Vec3};

verus! {

/// A 3 by 3 column major matrix. `w_axis` is the third column, which holds the
/// translation when the matrix is used as a 2D affine transform.
#[derive(Debug, Clone, Copy, PartialEq, Eq, Structural)]
pub struct Mat3f {
    pub x_axis: Vec3,
    pub y_axis: Vec3,
    pub w_axis: Vec3,
}

/// The determinant of the 2 by 2 matrix with columns `a` and `b`.
pub open spec fn det2(a: (int, int), b: (int, int)) -> int {
    a.0 * b.1 - b.0 * a.1
}

impl From<[[i32; 3]; 3]> for Mat3f {
    /// The matrix with the three given columns.
    fn from(cols: [[i32; 3]; 3]) -> (r: Self) {
        Mat3f {
            x_axis: Vec3 { x: cols[0][0], y: cols[0][1], z: cols[0][2] },
            y_axis: Vec3 { x: cols[1][0], y: cols[1][1], z: cols[1][2] },
            w_axis: Vec3 { x: cols[2][0], y: cols[2][1], z: cols[2][2] },
        }
    }
}

impl vstd::std_specs::convert::FromSpecImpl<[[i32; 3]; 3]> for Mat3f {
    open spec fn obeys_from_spec() -> bool {
        true
    }

    open spec fn from_spec(cols: [[i32; 3]; 3]) -> Self {
        Mat3f {
            x_axis: Vec3 { x: cols[0][0], y: cols[0][1], z: cols[0][2] },
            y_axis: Vec3 { x: cols[1][0], y: cols[1][1], z: cols[1][2] },
            w_axis: Vec3 { x: cols[2][0], y: cols[2][1], z: cols[2][2] },
        }
    }
}

impl Default for Mat3f {
    /// The all-zero matrix.
    fn default() -> (r: Self)
        ensures
            forall|c: int, r2: int| #[trigger] r.at_spec(c, r2) == 0,
    {
        Mat3f::new()
    }
}

impl Mat3f {
    /// Column `c` as an integer triple.
    pub open spec fn col(self, c: int) -> (int, int, int) {
        if c == 0 {
            self.x_axis@
        } else if c == 1 {
            self.y_axis@
        } else {
            self.w_axis@
        }
    }

    /// Row `r` as an integer triple.
    pub open spec fn row(self, r: int) -> (int, int, int) {
        (self.at_spec(0, r), self.at_spec(1, r), self.at_spec(2, r))
    }

    /// The entry in column `c` and row `r`.
    pub open spec fn at_spec(self, c: int, r: int) -> int {
        let t = self.col(c);
        if r == 0 {
            t.0
        } else if r == 1 {
            t.1
        } else {
            t.2
        }
    }

    /// The row vector product `v * self`.
    pub open spec fn left_prod_spec(self, v: (int, int, int)) -> (int, int, int) {
        (dot3(v, self.col(0)), dot3(v, self.col(1)), dot3(v, self.col(2)))
    }

    /// The column vector product `self * v`.
    pub open spec fn right_prod_spec(self, v: (int, int, int)) -> (int, int, int) {
        (dot3(self.row(0), v), dot3(self.row(1), v), dot3(self.row(2), v))
    }

    /// The entry in column `c` and row `r` of the product `self * b`.
    pub open spec fn mul_at(self, b: Mat3f, c: int, r: int) -> int {
        dot3(self.row(r), b.col(c))
    }

    /// Every entry of `self * b` fits in an `i32`.
    pub open spec fn mul_fits(self, b: Mat3f) -> bool {
        forall|c: int, r: int| 0 <= c < 3 && 0 <= r < 3 ==> fits_i32(#[trigger] self.mul_at(b, c, r))
    }

    /// The determinant, expanded by minors along the first row.
    pub open spec fn det_spec(self) -> int {
        let (x, y, w) = (self.col(0), self.col(1), self.col(2));
        x.0 * det2((y.1, y.2), (w.1, w.2)) - y.0 * det2((x.1, x.2), (w.1, w.2)) + w.0 * det2(
            (x.1, x.2),
            (y.1, y.2),
        )
    }

    /// Row `r` of the adjugate: the cross product of the two columns other
    /// than column `r`, taken in cyclic order.
    pub open spec fn cofactors(self, r: int) -> (int, int, int) {
        cross3(self.col((r + 1) % 3), self.col((r + 2) % 3))
    }

    /// The entry in column `c` and row `r` of the adjugate, the matrix that
    /// equals the inverse times the determinant.
    pub open spec fn adj_at(self, c: int, r: int) -> int {
        let t = self.cofactors(r);
        if c == 0 {
            t.0
        } else if c == 1 {
            t.1
        } else {
            t.2
        }
    }

    /// Every entry of the adjugate fits in an `i32`.
    pub open spec fn adj_fits(self) -> bool {
        fits_i32_triple(self.cofactors(0)) && fits_i32_triple(self.cofactors(1))
            && fits_i32_triple(self.cofactors(2))
    }

    /// The all-zero matrix.
    pub fn new() -> (r: Self)
        ensures
            forall|c: int, r2: int| #[trigger] r.at_spec(c, r2) == 0,
    {
        Mat3f { x_axis: Vec3 { x: 0, y: 0, z: 0 }, y_axis: Vec3 { x: 0, y: 0, z: 0 }, w_axis: Vec3 { x: 0, y: 0, z: 0 } }
    }

    pub fn x_axis(&self) -> (r: Vec3)
        ensures
            r@ == self.col(0),
    {
        self.x_axis
    }

    pub fn y_axis(&self) -> (r: Vec3)
        ensures
            r@ == self.col(1),
    {
        self.y_axis
    }

    pub fn w_axis(&self) -> (r: Vec3)
        ensures
            r@ == self.col(2),
    {
        self.w_axis
    }

    /// The nine entries in column-major order.
    pub fn as_list(&self) -> (r: Vec<i32>)
        ensures
            r@.len() == 9,
            forall|i: int| 0 <= i < 9 ==> #[trigger] r@[i] == self.at_spec(i / 3, i % 3),
    {
        let mut v: Vec<i32> = Vec::with_capacity(9);
        v.push(self.x_axis.x);
        v.push(self.x_axis.y);
        v.push(self.x_axis.z);
        v.push(self.y_axis.x);
        v.push(self.y_axis.y);
        v.push(self.y_axis.z);
        v.push(self.w_axis.x);
        v.push(self.w_axis.y);
        v.push(self.w_axis.z);
        v
    }

    /// The identity matrix.
    pub fn identity() -> (r: Self)
        ensures
            forall|c: int, r2: int|
                0 <= c < 3 && 0 <= r2 < 3 ==> #[trigger] r.at_spec(c, r2) == (if c == r2 {
                    1int
                } else {
                    0int
                }),
    {
        Mat3f::scale(1)
    }

    /// The 2D scale transform: `a` on the first two diagonal entries, one on
    /// the last.
    pub fn scale(a: i32) -> (r: Self)
        ensures
            r.col(0) == (a as int, 0int, 0int),
            r.col(1) == (0int, a as int, 0int),
            r.col(2) == (0int, 0int, 1int),
    {
        Mat3f { x_axis: Vec3 { x: a, y: 0, z: 0 }, y_axis: Vec3 { x: 0, y: a, z: 0 }, w_axis: Vec3 { x: 0, y: 0, z: 1 } }
    }

    /// The 2D translation by `t`: for a homogeneous point `p` with last
    /// component one, `translate(t) * p == p + t`.
    pub fn translate(t: Vec2) -> (r: Self)
        ensures
            r.col(0) == (1int, 0int, 0int),
            r.col(1) == (0int, 1int, 0int),
            r.col(2) == (t.x as int, t.y as int, 1int),
    {
        Mat3f { x_axis: Vec3 { x: 1, y: 0, z: 0 }, y_axis: Vec3 { x: 0, y: 1, z: 0 }, w_axis: Vec3 { x: t.x, y: t.y, z: 1 } }
    }

    /// The transpose: rows become columns.
    pub fn transposed(&self) -> (r: Self)
        ensures
            forall|c: int, r2: int|
                0 <= c < 3 && 0 <= r2 < 3 ==> #[trigger] r.at_spec(c, r2) == self.at_spec(r2, c),
    {
        Mat3f {
            x_axis: Vec3 { x: self.x_axis.x, y: self.y_axis.x, z: self.w_axis.x },
            y_axis: Vec3 { x: self.x_axis.y, y: self.y_axis.y, z: self.w_axis.y },
            w_axis: Vec3 { x: self.x_axis.z, y: self.y_axis.z, z: self.w_axis.z },
        }
    }

    /// Exchanges the values of the two matrices.
    pub fn swap(&mut self, other: &mut Mat3f)
        ensures
            *final(self) == *old(other),
            *final(other) == *old(self),
    {
        core::mem::swap(self, other);
    }

    /// Column `col`.
    pub fn axis(&self, col: usize) -> (r: Vec3)
        requires
            col < 3,
        ensures
            r@ == self.col(col as int),
    {
        *self.axis_ref(col)
    }

    /// A reference to the storage of column `col`.
    pub fn axis_ref(&self, col: usize) -> (r: &Vec3)
        requires
            col < 3,
        ensures
            r@ == self.col(col as int),
    {
        if col == 0 {
            &self.x_axis
        } else if col == 1 {
            &self.y_axis
        } else {
            &self.w_axis
        }
    }

    /// A mutable reference to column `col`.
    pub fn axis_mut(&mut self, col: usize) -> (r: &mut Vec3)
        requires
            col < 3,
        ensures
            r@ == old(self).col(col as int),
            *final(self) == (if col == 0 {
                Mat3f { x_axis: *final(r), ..*old(self) }
            } else if col == 1 {
                Mat3f { y_axis: *final(r), ..*old(self) }
            } else {
                Mat3f { w_axis: *final(r), ..*old(self) }
            }),
    {
        if col == 0 {
            &mut self.x_axis
        } else if col == 1 {
            &mut self.y_axis
        } else {
            &mut self.w_axis
        }
    }

    /// A mutable reference to the entry in column `col` and row `row`.
    pub fn at_mut(&mut self, col: usize, row: usize) -> (r: &mut i32)
        requires
            col < 3,
            row < 3,
        ensures
            *r == old(self).at_spec(col as int, row as int),
            forall|c: int, r2: int|
                0 <= c < 3 && 0 <= r2 < 3 ==> #[trigger] final(self).at_spec(c, r2) == if c == col
                    && r2 == row {
                    *final(r) as int
                } else {
                    old(self).at_spec(c, r2)
                },
    {
        self.axis_mut(col).get_mut(row)
    }

    /// The entry in column `col` and row `row`.
    pub fn at(&self, col: usize, row: usize) -> (r: i32)
        requires
            col < 3,
            row < 3,
        ensures
            r == self.at_spec(col as int, row as int),
    {
        self.axis_ref(col).get(row)
    }

    /// Overwrites the entry in column `col` and row `row`.
    pub fn set(&mut self, col: usize, row: usize, val: i32)
        requires
            col < 3,
            row < 3,
        ensures
            forall|c: int, r: int|
                0 <= c < 3 && 0 <= r < 3 ==> #[trigger] final(self).at_spec(c, r) == if c == col
                    && r == row {
                    val as int
                } else {
                    old(self).at_spec(c, r)
                },
    {
        if col == 0 {
            self.x_axis.set(row, val);
        } else if col == 1 {
            self.y_axis.set(row, val);
        } else {
            self.w_axis.set(row, val);
        }
    }

    /// The row vector product `v * M`: component `c` is the dot product of `v`
    /// with column `c`.
    pub fn left_prod(&self, v: &Vec3) -> (r: Vec3)
        requires
            fits_i32_triple(self.left_prod_spec(v@)),
        ensures
            r@ == self.left_prod_spec(v@),
    {
        Vec3 {
            x: v.dot(&self.x_axis) as i32,
            y: v.dot(&self.y_axis) as i32,
            z: v.dot(&self.w_axis) as i32,
        }
    }

    /// The column vector product `M * v`: component `r` is the dot product of
    /// row `r` with `v`.
    pub fn right_prod(&self, v: &Vec3) -> (r: Vec3)
        requires
            fits_i32_triple(self.right_prod_spec(v@)),
        ensures
            r@ == self.right_prod_spec(v@),
    {
        let r0 = Vec3::new(self.x_axis.x, self.y_axis.x, self.w_axis.x);
        let r1 = Vec3::new(self.x_axis.y, self.y_axis.y, self.w_axis.y);
        let r2 = Vec3::new(self.x_axis.z, self.y_axis.z, self.w_axis.z);
        Vec3 { x: r0.dot(v) as i32, y: r1.dot(v) as i32, z: r2.dot(v) as i32 }
    }

    /// The matrix product `self * b`.
    pub fn mat_mul(&self, b: &Mat3f) -> (r: Mat3f)
        requires
            self.mul_fits(*b),
        ensures
            forall|c: int, r2: int|
                0 <= c < 3 && 0 <= r2 < 3 ==> #[trigger] r.at_spec(c, r2) == self.mul_at(*b, c, r2),
    {
        assert(fits_i32(self.mul_at(*b, 0, 0)) && fits_i32(self.mul_at(*b, 0, 1)) && fits_i32(
            self.mul_at(*b, 0, 2),
        ));
        assert(fits_i32(self.mul_at(*b, 1, 0)) && fits_i32(self.mul_at(*b, 1, 1)) && fits_i32(
            self.mul_at(*b, 1, 2),
        ));
        assert(fits_i32(self.mul_at(*b, 2, 0)) && fits_i32(self.mul_at(*b, 2, 1)) && fits_i32(
            self.mul_at(*b, 2, 2),
        ));
        let x = self.right_prod(&b.x_axis());
        let y = self.right_prod(&b.y_axis());
        let w = self.right_prod(&b.w_axis());
        Mat3f { x_axis: x, y_axis: y, w_axis: w }
    }

    /// The entrywise sum.
    pub fn add(&self, other: &Mat3f) -> (r: Mat3f)
        requires
            forall|c: int, r2: int|
                0 <= c < 3 && 0 <= r2 < 3 ==> fits_i32(
                    #[trigger] self.at_spec(c, r2) + other.at_spec(c, r2),
                ),
        ensures
            forall|c: int, r2: int|
                0 <= c < 3 && 0 <= r2 < 3 ==> #[trigger] r.at_spec(c, r2) == self.at_spec(c, r2)
                    + other.at_spec(c, r2),
    {
        assert(self.col(0) == self.x_axis@ && other.col(0) == other.x_axis@);
        assert(self.col(1) == self.y_axis@ && other.col(1) == other.y_axis@);
        assert(fits_i32(self.at_spec(0, 0) + other.at_spec(0, 0)));
        assert(fits_i32(self.at_spec(0, 1) + other.at_spec(0, 1)));
        assert(fits_i32(self.at_spec(0, 2) + other.at_spec(0, 2)));
        assert(fits_i32(self.at_spec(1, 0) + other.at_spec(1, 0)));
        assert(fits_i32(self.at_spec(1, 1) + other.at_spec(1, 1)));
        assert(fits_i32(self.at_spec(1, 2) + other.at_spec(1, 2)));
        assert(fits_i32(self.at_spec(2, 0) + other.at_spec(2, 0)));
        assert(fits_i32(self.at_spec(2, 1) + other.at_spec(2, 1)));
        assert(fits_i32(self.at_spec(2, 2) + other.at_spec(2, 2)));
        assert(self.col(2) == self.w_axis@ && other.col(2) == other.w_axis@);
        Mat3f {
            x_axis: self.x_axis.add(&other.x_axis),
            y_axis: self.y_axis.add(&other.y_axis),
            w_axis: self.w_axis.add(&other.w_axis),
        }
    }

    /// The entrywise difference.
    pub fn sub(&self, other: &Mat3f) -> (r: Mat3f)
        requires
            forall|c: int, r2: int|
                0 <= c < 3 && 0 <= r2 < 3 ==> fits_i32(
                    #[trigger] self.at_spec(c, r2) - other.at_spec(c, r2),
                ),
        ensures
            forall|c: int, r2: int|
                0 <= c < 3 && 0 <= r2 < 3 ==> #[trigger] r.at_spec(c, r2) == self.at_spec(c, r2)
                    - other.at_spec(c, r2),
    {
        assert(self.col(0) == self.x_axis@ && other.col(0) == other.x_axis@);
        assert(self.col(1) == self.y_axis@ && other.col(1) == other.y_axis@);
        assert(fits_i32(self.at_spec(0, 0) - other.at_spec(0, 0)));
        assert(fits_i32(self.at_spec(0, 1) - other.at_spec(0, 1)));
        assert(fits_i32(self.at_spec(0, 2) - other.at_spec(0, 2)));
        assert(fits_i32(self.at_spec(1, 0) - other.at_spec(1, 0)));
        assert(fits_i32(self.at_spec(1, 1) - other.at_spec(1, 1)));
        assert(fits_i32(self.at_spec(1, 2) - other.at_spec(1, 2)));
        assert(fits_i32(self.at_spec(2, 0) - other.at_spec(2, 0)));
        assert(fits_i32(self.at_spec(2, 1) - other.at_spec(2, 1)));
        assert(fits_i32(self.at_spec(2, 2) - other.at_spec(2, 2)));
        assert(self.col(2) == self.w_axis@ && other.col(2) == other.w_axis@);
        Mat3f {
            x_axis: self.x_axis.sub(&other.x_axis),
            y_axis: self.y_axis.sub(&other.y_axis),
            w_axis: self.w_axis.sub(&other.w_axis),
        }
    }

    /// Multiplies every entry by `a`.
    pub fn scalar_mul(&self, a: i32) -> (r: Mat3f)
        requires
            forall|c: int, r2: int|
                0 <= c < 3 && 0 <= r2 < 3 ==> fits_i32(#[trigger] self.at_spec(c, r2) * a),
        ensures
            forall|c: int, r2: int|
                0 <= c < 3 && 0 <= r2 < 3 ==> #[trigger] r.at_spec(c, r2) == self.at_spec(c, r2) * a,
    {
        assert(self.col(0) == self.x_axis@);
        assert(self.col(1) == self.y_axis@);
        assert(fits_i32(self.at_spec(0, 0) * a));
        assert(fits_i32(self.at_spec(0, 1) * a));
        assert(fits_i32(self.at_spec(0, 2) * a));
        assert(fits_i32(self.at_spec(1, 0) * a));
        assert(fits_i32(self.at_spec(1, 1) * a));
        assert(fits_i32(self.at_spec(1, 2) * a));
        assert(fits_i32(self.at_spec(2, 0) * a));
        assert(fits_i32(self.at_spec(2, 1) * a));
        assert(fits_i32(self.at_spec(2, 2) * a));
        assert(self.col(2) == self.w_axis@);
        Mat3f { x_axis: self.x_axis.mul(a), y_axis: self.y_axis.mul(a), w_axis: self.w_axis.mul(a) }
    }

    /// The determinant, expanded by minors along the first row.
    pub fn det(&self) -> (r: i128)
        ensures
            r == self.det_spec(),
    {
        let m0 = mul_i32(self.y_axis.y, self.w_axis.z) - mul_i32(self.w_axis.y, self.y_axis.z);
        let m1 = mul_i32(self.x_axis.y, self.w_axis.z) - mul_i32(self.w_axis.y, self.x_axis.z);
        let m2 = mul_i32(self.x_axis.y, self.y_axis.z) - mul_i32(self.y_axis.y, self.x_axis.z);
        mul_i32_i64(self.x_axis.x, m0) - mul_i32_i64(self.y_axis.x, m1) + mul_i32_i64(
            self.w_axis.x,
            m2,
        )
    }

    /// Whether `inverted` can be called: the adjugate of an invertible matrix
    /// must fit in a `Mat3f`.
    pub fn inverse_fits(&self) -> (r: bool)
        ensures
            r == (self.det_spec() != 0 ==> self.adj_fits()),
    {
        if self.det() == 0 {
            return true;
        }
        let (u, v, w) = (self.x_axis, self.y_axis, self.w_axis);
        cross_fits(&v, &w) && cross_fits(&w, &u) && cross_fits(&u, &v)
    }

    /// The inverse, as the adjugate matrix together with the determinant:
    /// the inverse is the adjugate divided by the determinant. Returns `None`
    /// exactly when the determinant is zero.
    pub fn inverted(&self) -> (r: Option<(Mat3f, i128)>)
        requires
            self.det_spec() != 0 ==> self.adj_fits(),
        ensures
            r is None <==> self.det_spec() == 0,
            r matches Some((adj, d)) ==> d == self.det_spec() && forall|c: int, r2: int|
                0 <= c < 3 && 0 <= r2 < 3 ==> #[trigger] adj.at_spec(c, r2) == self.adj_at(c, r2),
    {
        let det = self.det();
        if det == 0 {
            return None;
        }
        let u = self.x_axis();
        let v = self.y_axis();
        let w = self.w_axis();
        let a = v.cross(&w);
        let b = w.cross(&u);
        let c = u.cross(&v);
        let adj = Mat3f { x_axis: Vec3 { x: a.x, y: b.x, z: c.x }, y_axis: Vec3 { x: a.y, y: b.y, z: c.y }, w_axis: Vec3 { x: a.z, y: b.z, z: c.z } };
        Some((adj, det))
    }
}

/// Whether every component of `a x b` fits in an `i32`.
fn cross_fits(a: &Vec3, b: &Vec3) -> (r: bool)
    ensures
        r == fits_i32_triple(cross3(a@, b@)),
{
    let x = mul_i32(a.y, b.z) - mul_i32(a.z, b.y);
    let y = mul_i32(a.z, b.x) - mul_i32(a.x, b.z);
    let z = mul_i32(a.x, b.y) - mul_i32(a.y, b.x);
    let lo = i32::MIN as i64;
    let hi = i32::MAX as i64;
    lo <= x && x <= hi && lo <= y && y <= hi && lo <= z && z <= hi
}

/// The scalar triple product is invariant under cyclic rotation, equals the
/// determinant expanded along the first row, and vanishes when a factor of the
/// cross product is repeated.
proof fn lemma_triple_product(u: (int, int, int), v: (int, int, int), w: (int, int, int))
    ensures
        dot3(cross3(v, w), u) == u.0 * det2((v.1, v.2), (w.1, w.2)) - v.0 * det2((u.1, u.2), (w.1, w.2))
            + w.0 * det2((u.1, u.2), (v.1, v.2)),
        dot3(cross3(w, u), v) == dot3(cross3(v, w), u),
        dot3(cross3(u, v), w) == dot3(cross3(v, w), u),
        dot3(cross3(v, w), v) == 0,
        dot3(cross3(v, w), w) == 0,
{
    let (u0, u1, u2) = u;
    let (v0, v1, v2) = v;
    let (w0, w1, w2) = w;
    // Each product is expanded into monomials whose factors stand in a fixed
    // order; the identities below are then linear in those monomials.
    assert((v1 * w2 - v2 * w1) * u0 == u0 * v1 * w2 - u0 * v2 * w1) by (nonlinear_arith);
    assert((v2 * w0 - v0 * w2) * u1 == u1 * v2 * w0 - u1 * v0 * w2) by (nonlinear_arith);
    assert((v0 * w1 - v1 * w0) * u2 == u2 * v0 * w1 - u2 * v1 * w0) by (nonlinear_arith);
    assert(u0 * (v1 * w2 - w1 * v2) == u0 * v1 * w2 - u0 * v2 * w1) by (nonlinear_arith);
    assert(v0 * (u1 * w2 - w1 * u2) == u1 * v0 * w2 - u2 * v0 * w1) by (nonlinear_arith);
    assert(w0 * (u1 * v2 - v1 * u2) == u1 * v2 * w0 - u2 * v1 * w0) by (nonlinear_arith);
    assert((w1 * u2 - w2 * u1) * v0 == u2 * v0 * w1 - u1 * v0 * w2) by (nonlinear_arith);
    assert((w2 * u0 - w0 * u2) * v1 == u0 * v1 * w2 - u2 * v1 * w0) by (nonlinear_arith);
    assert((w0 * u1 - w1 * u0) * v2 == u1 * v2 * w0 - u0 * v2 * w1) by (nonlinear_arith);
    assert((u1 * v2 - u2 * v1) * w0 == u1 * v2 * w0 - u2 * v1 * w0) by (nonlinear_arith);
    assert((u2 * v0 - u0 * v2) * w1 == u2 * v0 * w1 - u0 * v2 * w1) by (nonlinear_arith);
    assert((u0 * v1 - u1 * v0) * w2 == u0 * v1 * w2 - u1 * v0 * w2) by (nonlinear_arith);
    assert((v1 * w2 - v2 * w1) * v0 == v0 * v1 * w2 - v0 * v2 * w1) by (nonlinear_arith);
    assert((v2 * w0 - v0 * w2) * v1 == v1 * v2 * w0 - v0 * v1 * w2) by (nonlinear_arith);
    assert((v0 * w1 - v1 * w0) * v2 == v0 * v2 * w1 - v1 * v2 * w0) by (nonlinear_arith);
    assert((v1 * w2 - v2 * w1) * w0 == v1 * w0 * w2 - v2 * w0 * w1) by (nonlinear_arith);
    assert((v2 * w0 - v0 * w2) * w1 == v2 * w0 * w1 - v0 * w1 * w2) by (nonlinear_arith);
    assert((v0 * w1 - v1 * w0) * w2 == v0 * w1 * w2 - v1 * w0 * w2) by (nonlinear_arith);
    assert((v1 * w2 - v2 * w1) * u0 + (v2 * w0 - v0 * w2) * u1 + (v0 * w1 - v1 * w0) * u2 == u0 * (v1 * w2 - w1 * v2) - v0 * (u1 * w2 - w1 * u2) + w0 * (u1 * v2 - v1 * u2));
    assert((w1 * u2 - w2 * u1) * v0 + (w2 * u0 - w0 * u2) * v1 + (w0 * u1 - w1 * u0) * v2 == (v1 * w2 - v2 * w1) * u0 + (v2 * w0 - v0 * w2) * u1 + (v0 * w1 - v1 * w0) * u2);
    assert((u1 * v2 - u2 * v1) * w0 + (u2 * v0 - u0 * v2) * w1 + (u0 * v1 - u1 * v0) * w2 == (v1 * w2 - v2 * w1) * u0 + (v2 * w0 - v0 * w2) * u1 + (v0 * w1 - v1 * w0) * u2);
    assert((v1 * w2 - v2 * w1) * v0 + (v2 * w0 - v0 * w2) * v1 + (v0 * w1 - v1 * w0) * v2 == 0);
    assert((v1 * w2 - v2 * w1) * w0 + (v2 * w0 - v0 * w2) * w1 + (v0 * w1 - v1 * w0) * w2 == 0);
}

/// Expanding along columns: row `r` of a matrix, paired with column `c` of its
/// adjugate, gives the determinant when `r == c` and zero otherwise.
proof fn lemma_cofactor_columns(m: Mat3f)
    ensures
        forall|c: int, r: int|
            0 <= c < 3 && 0 <= r < 3 ==> #[trigger] dot3(
                m.row(r),
                (m.adj_at(c, 0), m.adj_at(c, 1), m.adj_at(c, 2)),
            ) == (if c == r {
                m.det_spec()
            } else {
                0
            }),
{
    let (x0, x1, x2) = m.col(0);
    let (y0, y1, y2) = m.col(1);
    let (w0, w1, w2) = m.col(2);
    // As in `lemma_triple_product`: expand into monomials, then add up.
    assert(x0 * (y1 * w2 - y2 * w1) == w2 * x0 * y1 - w1 * x0 * y2) by (nonlinear_arith);
    assert(y0 * (w1 * x2 - w2 * x1) == w1 * x2 * y0 - w2 * x1 * y0) by (nonlinear_arith);
    assert(w0 * (x1 * y2 - x2 * y1) == w0 * x1 * y2 - w0 * x2 * y1) by (nonlinear_arith);
    assert(x0 * (y1 * w2 - w1 * y2) == w2 * x0 * y1 - w1 * x0 * y2) by (nonlinear_arith);
    assert(y0 * (x1 * w2 - w1 * x2) == w2 * x1 * y0 - w1 * x2 * y0) by (nonlinear_arith);
    assert(w0 * (x1 * y2 - y1 * x2) == w0 * x1 * y2 - w0 * x2 * y1) by (nonlinear_arith);
    assert(x1 * (y1 * w2 - y2 * w1) == w2 * x1 * y1 - w1 * x1 * y2) by (nonlinear_arith);
    assert(y1 * (w1 * x2 - w2 * x1) == w1 * x2 * y1 - w2 * x1 * y1) by (nonlinear_arith);
    assert(w1 * (x1 * y2 - x2 * y1) == w1 * x1 * y2 - w1 * x2 * y1) by (nonlinear_arith);
    assert(x2 * (y1 * w2 - y2 * w1) == w2 * x2 * y1 - w1 * x2 * y2) by (nonlinear_arith);
    assert(y2 * (w1 * x2 - w2 * x1) == w1 * x2 * y2 - w2 * x1 * y2) by (nonlinear_arith);
    assert(w2 * (x1 * y2 - x2 * y1) == w2 * x1 * y2 - w2 * x2 * y1) by (nonlinear_arith);
    assert(x0 * (y2 * w0 - y0 * w2) == w0 * x0 * y2 - w2 * x0 * y0) by (nonlinear_arith);
    assert(y0 * (w2 * x0 - w0 * x2) == w2 * x0 * y0 - w0 * x2 * y0) by (nonlinear_arith);
    assert(w0 * (x2 * y0 - x0 * y2) == w0 * x2 * y0 - w0 * x0 * y2) by (nonlinear_arith);
    assert(x1 * (y2 * w0 - y0 * w2) == w0 * x1 * y2 - w2 * x1 * y0) by (nonlinear_arith);
    assert(y1 * (w2 * x0 - w0 * x2) == w2 * x0 * y1 - w0 * x2 * y1) by (nonlinear_arith);
    assert(w1 * (x2 * y0 - x0 * y2) == w1 * x2 * y0 - w1 * x0 * y2) by (nonlinear_arith);
    assert(x2 * (y2 * w0 - y0 * w2) == w0 * x2 * y2 - w2 * x2 * y0) by (nonlinear_arith);
    assert(y2 * (w2 * x0 - w0 * x2) == w2 * x0 * y2 - w0 * x2 * y2) by (nonlinear_arith);
    assert(w2 * (x2 * y0 - x0 * y2) == w2 * x2 * y0 - w2 * x0 * y2) by (nonlinear_arith);
    assert(x0 * (y0 * w1 - y1 * w0) == w1 * x0 * y0 - w0 * x0 * y1) by (nonlinear_arith);
    assert(y0 * (w0 * x1 - w1 * x0) == w0 * x1 * y0 - w1 * x0 * y0) by (nonlinear_arith);
    assert(w0 * (x0 * y1 - x1 * y0) == w0 * x0 * y1 - w0 * x1 * y0) by (nonlinear_arith);
    assert(x1 * (y0 * w1 - y1 * w0) == w1 * x1 * y0 - w0 * x1 * y1) by (nonlinear_arith);
    assert(y1 * (w0 * x1 - w1 * x0) == w0 * x1 * y1 - w1 * x0 * y1) by (nonlinear_arith);
    assert(w1 * (x0 * y1 - x1 * y0) == w1 * x0 * y1 - w1 * x1 * y0) by (nonlinear_arith);
    assert(x2 * (y0 * w1 - y1 * w0) == w1 * x2 * y0 - w0 * x2 * y1) by (nonlinear_arith);
    assert(y2 * (w0 * x1 - w1 * x0) == w0 * x1 * y2 - w1 * x0 * y2) by (nonlinear_arith);
    assert(w2 * (x0 * y1 - x1 * y0) == w2 * x0 * y1 - w2 * x1 * y0) by (nonlinear_arith);
    assert(x0 * (y1 * w2 - y2 * w1) + y0 * (w1 * x2 - w2 * x1) + w0 * (x1 * y2 - x2 * y1) == x0 * (y1 * w2 - w1 * y2) - y0 * (x1 * w2 - w1 * x2) + w0 * (x1 * y2 - y1 * x2));
    assert(x1 * (y1 * w2 - y2 * w1) + y1 * (w1 * x2 - w2 * x1) + w1 * (x1 * y2 - x2 * y1) == 0);
    assert(x2 * (y1 * w2 - y2 * w1) + y2 * (w1 * x2 - w2 * x1) + w2 * (x1 * y2 - x2 * y1) == 0);
    assert(x0 * (y2 * w0 - y0 * w2) + y0 * (w2 * x0 - w0 * x2) + w0 * (x2 * y0 - x0 * y2) == 0);
    assert(x1 * (y2 * w0 - y0 * w2) + y1 * (w2 * x0 - w0 * x2) + w1 * (x2 * y0 - x0 * y2) == x0 * (y1 * w2 - w1 * y2) - y0 * (x1 * w2 - w1 * x2) + w0 * (x1 * y2 - y1 * x2));
    assert(x2 * (y2 * w0 - y0 * w2) + y2 * (w2 * x0 - w0 * x2) + w2 * (x2 * y0 - x0 * y2) == 0);
    assert(x0 * (y0 * w1 - y1 * w0) + y0 * (w0 * x1 - w1 * x0) + w0 * (x0 * y1 - x1 * y0) == 0);
    assert(x1 * (y0 * w1 - y1 * w0) + y1 * (w0 * x1 - w1 * x0) + w1 * (x0 * y1 - x1 * y0) == 0);
    assert(x2 * (y0 * w1 - y1 * w0) + y2 * (w0 * x1 - w1 * x0) + w2 * (x0 * y1 - x1 * y0) == x0 * (y1 * w2 - w1 * y2) - y0 * (x1 * w2 - w1 * x2) + w0 * (x1 * y2 - y1 * x2));
}

/// The scalar triple product of the three columns is the determinant:
/// `(x_axis x y_axis) . w_axis == det(m)`.
pub proof fn lemma_scalar_triple_is_det(m: Mat3f)
    ensures
        dot3(cross3(m.col(0), m.col(1)), m.col(2)) == m.det_spec(),
{
    lemma_triple_product(m.col(0), m.col(1), m.col(2));
}

/// A translation matrix moves every homogeneous point with last component
/// one by `t`: `translate(t) * p == p + t`.
pub proof fn lemma_translate_moves_point(m: Mat3f, t: Vec2, p: (int, int, int))
    requires
        m.col(0) == (1int, 0int, 0int),
        m.col(1) == (0int, 1int, 0int),
        m.col(2) == (t.x as int, t.y as int, 1int),
        p.2 == 1,
    ensures
        m.right_prod_spec(p) == (p.0 + t.x, p.1 + t.y, 1int),
{
}

/// The row vector product with a matrix is the column vector product with its
/// transpose: `v * m == transpose(m) * v`.
pub proof fn lemma_left_prod_is_transposed_right_prod(m: Mat3f, t: Mat3f, v: (int, int, int))
    requires
        forall|c: int, r: int| 0 <= c < 3 && 0 <= r < 3 ==> #[trigger] t.at_spec(c, r) == m.at_spec(r, c),
    ensures
        m.left_prod_spec(v) == t.right_prod_spec(v),
{
    assert(t.at_spec(0, 0) == m.at_spec(0, 0) && t.at_spec(1, 0) == m.at_spec(0, 1) && t.at_spec(2, 0)
        == m.at_spec(0, 2));
    assert(t.at_spec(0, 1) == m.at_spec(1, 0) && t.at_spec(1, 1) == m.at_spec(1, 1) && t.at_spec(2, 1)
        == m.at_spec(1, 2));
    assert(t.at_spec(0, 2) == m.at_spec(2, 0) && t.at_spec(1, 2) == m.at_spec(2, 1) && t.at_spec(2, 2)
        == m.at_spec(2, 2));
    assert(dot3(v, m.col(0)) == dot3(t.row(0), v)) by (nonlinear_arith)
        requires
            t.row(0) == m.col(0),
    ;
    assert(dot3(v, m.col(1)) == dot3(t.row(1), v)) by (nonlinear_arith)
        requires
            t.row(1) == m.col(1),
    ;
    assert(dot3(v, m.col(2)) == dot3(t.row(2), v)) by (nonlinear_arith)
        requires
            t.row(2) == m.col(2),
    ;
}

/// Inversion is exact: where `m.inverted()` gives the adjugate `adj` and the
/// determinant `d != 0`, both `adj * m` and `m * adj` equal `d` times the
/// identity, so `adj / d` times `m` is the identity matrix in either order.
pub proof fn lemma_inverted_is_inverse(m: Mat3f, adj: Mat3f)
    requires
        m.det_spec() != 0,
        forall|c: int, r: int| 0 <= c < 3 && 0 <= r < 3 ==> #[trigger] adj.at_spec(c, r) == m.adj_at(c, r),
    ensures
        forall|c: int, r: int|
            0 <= c < 3 && 0 <= r < 3 ==> #[trigger] adj.mul_at(m, c, r) == (if c == r {
                m.det_spec()
            } else {
                0
            }),
        forall|c: int, r: int|
            0 <= c < 3 && 0 <= r < 3 ==> #[trigger] m.mul_at(adj, c, r) == (if c == r {
                m.det_spec()
            } else {
                0
            }),
{
    let (x, y, w) = (m.col(0), m.col(1), m.col(2));
    lemma_triple_product(x, y, w);
    lemma_triple_product(y, w, x);
    lemma_triple_product(w, x, y);
    assert(adj.at_spec(0, 0) == m.adj_at(0, 0) && adj.at_spec(1, 0) == m.adj_at(1, 0)
        && adj.at_spec(2, 0) == m.adj_at(2, 0));
    assert(adj.at_spec(0, 1) == m.adj_at(0, 1) && adj.at_spec(1, 1) == m.adj_at(1, 1)
        && adj.at_spec(2, 1) == m.adj_at(2, 1));
    assert(adj.at_spec(0, 2) == m.adj_at(0, 2) && adj.at_spec(1, 2) == m.adj_at(1, 2)
        && adj.at_spec(2, 2) == m.adj_at(2, 2));
    assert(adj.row(0) == m.cofactors(0));
    assert(adj.row(1) == m.cofactors(1));
    assert(adj.row(2) == m.cofactors(2));
    assert(adj.col(0) == (m.adj_at(0, 0), m.adj_at(0, 1), m.adj_at(0, 2)));
    assert(adj.col(1) == (m.adj_at(1, 0), m.adj_at(1, 1), m.adj_at(1, 2)));
    assert(adj.col(2) == (m.adj_at(2, 0), m.adj_at(2, 1), m.adj_at(2, 2)));
    lemma_cofactor_columns(m);
}

} // verus!
