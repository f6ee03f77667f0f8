//! Two by two integer matrices, stored by column.
use vstd::prelude::*;

use crate::mat3::Mat3f;
use crate::num::{abs, fits_i32, mul_i32};
use crate::vec2::{fits_i32_pair, Vec2};
use crate::vec3::Vec3;

verus! {

/// A 2 by 2 column major matrix: `at(col, row)` is component `row` of column
/// `col`.
#[derive(Debug, Clone, Copy, PartialEq, Eq, Structural)]
pub struct Mat2f {
    pub x_axis: Vec2,
    pub y_axis: Vec2,
}

impl From<[[i32; 2]; 2]> for Mat2f {
    /// The matrix with the two given columns.
    fn from(cols: [[i32; 2]; 2]) -> (r: Self) {
        Mat2f {
            x_axis: Vec2 { x: cols[0][0], y: cols[0][1] },
            y_axis: Vec2 { x: cols[1][0], y: cols[1][1] },
        }
    }
}

impl vstd::std_specs::convert::FromSpecImpl<[[i32; 2]; 2]> for Mat2f {
    open spec fn obeys_from_spec() -> bool {
        true
    }

    open spec fn from_spec(cols: [[i32; 2]; 2]) -> Self {
        Mat2f {
            x_axis: Vec2 { x: cols[0][0], y: cols[0][1] },
            y_axis: Vec2 { x: cols[1][0], y: cols[1][1] },
        }
    }
}

impl Default for Mat2f {
    /// The all-zero matrix.
    fn default() -> (r: Self)
        ensures
            forall|c: int, r2: int| 0 <= c < 2 && 0 <= r2 < 2 ==> #[trigger] r.at_spec(c, r2) == 0,
    {
        Mat2f::new()
    }
}

impl Mat2f {
    /// Column `c`.
    pub open spec fn col(self, c: int) -> Vec2 {
        if c == 0 {
            self.x_axis
        } else {
            self.y_axis
        }
    }

    /// The entry in column `c` and row `r`.
    pub open spec fn at_spec(self, c: int, r: int) -> int {
        self.col(c).get_spec(r)
    }

    /// The entry in column `c` and row `r` of the product `self * b`.
    pub open spec fn mul_at(self, b: Mat2f, c: int, r: int) -> int {
        self.at_spec(0, r) * b.at_spec(c, 0) + self.at_spec(1, r) * b.at_spec(c, 1)
    }

    /// Every entry of `self * b` fits in an `i32`.
    pub open spec fn mul_fits(self, b: Mat2f) -> bool {
        forall|c: int, r: int| 0 <= c < 2 && 0 <= r < 2 ==> fits_i32(#[trigger] self.mul_at(b, c, r))
    }

    /// The row vector product `v * self`.
    pub open spec fn left_prod_spec(self, v: (int, int)) -> (int, int) {
        (v.0 * self.x_axis.x + v.1 * self.x_axis.y, v.0 * self.y_axis.x + v.1 * self.y_axis.y)
    }

    /// The column vector product `self * v`.
    pub open spec fn right_prod_spec(self, v: (int, int)) -> (int, int) {
        (self.x_axis.x * v.0 + self.y_axis.x * v.1, self.x_axis.y * v.0 + self.y_axis.y * v.1)
    }

    /// The determinant.
    pub open spec fn det_spec(self) -> int {
        self.x_axis.x * self.y_axis.y - self.x_axis.y * self.y_axis.x
    }

    /// The entry in column `c` and row `r` of the adjugate, the matrix that
    /// equals the inverse times the determinant.
    pub open spec fn adj_at(self, c: int, r: int) -> int {
        if c == 0 && r == 0 {
            self.y_axis.y as int
        } else if c == 0 {
            -self.x_axis.y
        } else if r == 0 {
            -self.y_axis.x
        } else {
            self.x_axis.x as int
        }
    }

    /// The all-zero matrix.
    pub fn new() -> (r: Self)
        ensures
            forall|c: int, r2: int| 0 <= c < 2 && 0 <= r2 < 2 ==> #[trigger] r.at_spec(c, r2) == 0,
    {
        Mat2f { x_axis: Vec2 { x: 0, y: 0 }, y_axis: Vec2 { x: 0, y: 0 } }
    }

    /// Embeds this linear map in a 3 by 3 matrix: this matrix in the top left
    /// corner, `last_row` below it (zero by default) and `last_column` on the
    /// right (`(0, 0, 1)` by default).
    pub fn to_mat3(&self, last_column: Option<Vec3>, last_row: Option<Vec2>) -> (r: Mat3f)
        ensures
            r.x_axis@ == (self.x_axis.x as int, self.x_axis.y as int, (match last_row {
                Some(v) => v.x,
                None => 0i32,
            }) as int),
            r.y_axis@ == (self.y_axis.x as int, self.y_axis.y as int, (match last_row {
                Some(v) => v.y,
                None => 0i32,
            }) as int),
            r.w_axis == (match last_column {
                Some(v) => v,
                None => Vec3 { x: 0, y: 0, z: 1 },
            }),
    {
        let last = match last_row {
            Some(v) => v,
            None => Vec2 { x: 0, y: 0 },
        };
        let w = match last_column {
            Some(v) => v,
            None => Vec3 { x: 0, y: 0, z: 1 },
        };
        Mat3f {
            x_axis: Vec3 { x: self.x_axis.x, y: self.x_axis.y, z: last.x },
            y_axis: Vec3 { x: self.y_axis.x, y: self.y_axis.y, z: last.y },
            w_axis: w,
        }
    }

    /// The uniform scale: `a` on the diagonal.
    pub fn scale(a: i32) -> (r: Self)
        ensures
            r.x_axis == (Vec2 { x: a, y: 0 }),
            r.y_axis == (Vec2 { x: 0, y: a }),
    {
        Mat2f { x_axis: Vec2 { x: a, y: 0 }, y_axis: Vec2 { x: 0, y: a } }
    }

    /// Exchanges the values of the two matrices.
    pub fn swap(&mut self, other: &mut Mat2f)
        ensures
            *final(self) == *old(other),
            *final(other) == *old(self),
    {
        core::mem::swap(self, other);
    }

    /// Column `col`.
    pub fn axis(&self, col: usize) -> (r: Vec2)
        requires
            col < 2,
        ensures
            r == self.col(col as int),
    {
        if col == 0 {
            self.x_axis
        } else {
            self.y_axis
        }
    }

    /// A mutable reference to column `col`.
    pub fn axis_mut(&mut self, col: usize) -> (r: &mut Vec2)
        requires
            col < 2,
        ensures
            *r == old(self).col(col as int),
            *final(self) == (if col == 0 {
                Mat2f { x_axis: *final(r), y_axis: old(self).y_axis }
            } else {
                Mat2f { x_axis: old(self).x_axis, y_axis: *final(r) }
            }),
    {
        if col == 0 {
            &mut self.x_axis
        } else {
            &mut self.y_axis
        }
    }

    /// A mutable reference to the entry in column `col` and row `row`.
    pub fn at_mut(&mut self, col: usize, row: usize) -> (r: &mut i32)
        requires
            col < 2,
            row < 2,
        ensures
            *r == old(self).at_spec(col as int, row as int),
            forall|c: int, r2: int|
                0 <= c < 2 && 0 <= r2 < 2 ==> #[trigger] final(self).at_spec(c, r2) == if c == col
                    && r2 == row {
                    *final(r) as int
                } else {
                    old(self).at_spec(c, r2)
                },
    {
        self.axis_mut(col).get_mut(row)
    }

    /// The entry in column `col` and row `row`.
    pub fn at(&self, col: usize, row: usize) -> (r: i32)
        requires
            col < 2,
            row < 2,
        ensures
            r == self.at_spec(col as int, row as int),
    {
        self.axis(col).get(row)
    }

    /// Overwrites the entry in column `col` and row `row`.
    pub fn set(&mut self, col: usize, row: usize, val: i32)
        requires
            col < 2,
            row < 2,
        ensures
            forall|c: int, r: int|
                0 <= c < 2 && 0 <= r < 2 ==> #[trigger] final(self).at_spec(c, r) == if c == col
                    && r == row {
                    val as int
                } else {
                    old(self).at_spec(c, r)
                },
    {
        if col == 0 {
            self.x_axis.set(row, val);
        } else {
            self.y_axis.set(row, val);
        }
    }

    /// The row vector product `v * M`: component `c` is the dot product of `v`
    /// with column `c`.
    pub fn left_prod(&self, v: Vec2) -> (r: Vec2)
        requires
            fits_i32_pair(self.left_prod_spec(v@)),
        ensures
            r@ == self.left_prod_spec(v@),
    {
        Vec2 { x: v.dot(&self.x_axis) as i32, y: v.dot(&self.y_axis) as i32 }
    }

    /// The column vector product `M * v`: component `r` is the dot product of
    /// row `r` with `v`.
    pub fn right_prod(&self, v: Vec2) -> (r: Vec2)
        requires
            fits_i32_pair(self.right_prod_spec(v@)),
        ensures
            r@ == self.right_prod_spec(v@),
    {
        let x = mul_i32(self.x_axis.x, v.x) + mul_i32(self.y_axis.x, v.y);
        let y = mul_i32(self.x_axis.y, v.x) + mul_i32(self.y_axis.y, v.y);
        Vec2 { x: x as i32, y: y as i32 }
    }

    /// The determinant.
    pub fn det(&self) -> (r: i64)
        ensures
            r == self.det_spec(),
    {
        mul_i32(self.x_axis.x, self.y_axis.y) - mul_i32(self.x_axis.y, self.y_axis.x)
    }

    /// Whether `inverted` can be called: the adjugate of an invertible matrix
    /// must fit in a `Mat2f`, so neither off-diagonal entry may be `i32::MIN`.
    pub fn inverse_fits(&self) -> (r: bool)
        ensures
            r == (self.det_spec() != 0 ==> fits_i32(-self.x_axis.y) && fits_i32(-self.y_axis.x)),
    {
        self.det() == 0 || (self.x_axis.y != i32::MIN && self.y_axis.x != i32::MIN)
    }

    /// The inverse, as the adjugate matrix together with the determinant:
    /// the inverse is the adjugate divided by the determinant. Returns `None`
    /// exactly when the determinant is zero.
    pub fn inverted(&self) -> (r: Option<(Mat2f, i64)>)
        requires
            self.det_spec() != 0 ==> fits_i32(-self.x_axis.y) && fits_i32(-self.y_axis.x),
        ensures
            r is None <==> self.det_spec() == 0,
            r matches Some((adj, d)) ==> d == self.det_spec() && forall|c: int, r2: int|
                0 <= c < 2 && 0 <= r2 < 2 ==> #[trigger] adj.at_spec(c, r2) == self.adj_at(c, r2),
    {
        let det = self.det();
        if det == 0 {
            return None;
        }
        let adj = Mat2f {
            x_axis: Vec2 { x: self.y_axis.y, y: -self.x_axis.y },
            y_axis: Vec2 { x: -self.y_axis.x, y: self.x_axis.x },
        };
        Some((adj, det))
    }

    /// The identity matrix.
    pub fn identity() -> (r: Mat2f)
        ensures
            forall|c: int, r2: int|
                0 <= c < 2 && 0 <= r2 < 2 ==> #[trigger] r.at_spec(c, r2) == (if c == r2 {
                    1int
                } else {
                    0int
                }),
    {
        Mat2f::scale(1)
    }

    /// The transpose: rows become columns.
    pub fn transposed(&self) -> (r: Self)
        ensures
            forall|c: int, r2: int|
                0 <= c < 2 && 0 <= r2 < 2 ==> #[trigger] r.at_spec(c, r2) == self.at_spec(r2, c),
    {
        Mat2f {
            x_axis: Vec2 { x: self.x_axis.x, y: self.y_axis.x },
            y_axis: Vec2 { x: self.x_axis.y, y: self.y_axis.y },
        }
    }

    /// The matrix product `self * b`.
    pub fn mat_mul(&self, b: &Mat2f) -> (r: Mat2f)
        requires
            self.mul_fits(*b),
        ensures
            forall|c: int, r2: int|
                0 <= c < 2 && 0 <= r2 < 2 ==> #[trigger] r.at_spec(c, r2) == self.mul_at(*b, c, r2),
    {
        assert(fits_i32(self.mul_at(*b, 0, 0)) && fits_i32(self.mul_at(*b, 0, 1)));
        assert(fits_i32(self.mul_at(*b, 1, 0)) && fits_i32(self.mul_at(*b, 1, 1)));
        Mat2f { x_axis: self.right_prod(b.x_axis), y_axis: self.right_prod(b.y_axis) }
    }

    /// The entrywise sum.
    pub fn add(&self, other: &Mat2f) -> (r: Mat2f)
        requires
            forall|c: int, r2: int|
                0 <= c < 2 && 0 <= r2 < 2 ==> fits_i32(
                    #[trigger] self.at_spec(c, r2) + other.at_spec(c, r2),
                ),
        ensures
            forall|c: int, r2: int|
                0 <= c < 2 && 0 <= r2 < 2 ==> #[trigger] r.at_spec(c, r2) == self.at_spec(c, r2)
                    + other.at_spec(c, r2),
    {
        assert(fits_i32(self.at_spec(0, 0) + other.at_spec(0, 0)) && fits_i32(
            self.at_spec(0, 1) + other.at_spec(0, 1),
        ));
        assert(fits_i32(self.at_spec(1, 0) + other.at_spec(1, 0)) && fits_i32(
            self.at_spec(1, 1) + other.at_spec(1, 1),
        ));
        Mat2f { x_axis: self.x_axis.add(&other.x_axis), y_axis: self.y_axis.add(&other.y_axis) }
    }

    /// The entrywise difference.
    pub fn sub(&self, other: &Mat2f) -> (r: Mat2f)
        requires
            forall|c: int, r2: int|
                0 <= c < 2 && 0 <= r2 < 2 ==> fits_i32(
                    #[trigger] self.at_spec(c, r2) - other.at_spec(c, r2),
                ),
        ensures
            forall|c: int, r2: int|
                0 <= c < 2 && 0 <= r2 < 2 ==> #[trigger] r.at_spec(c, r2) == self.at_spec(c, r2)
                    - other.at_spec(c, r2),
    {
        assert(fits_i32(self.at_spec(0, 0) - other.at_spec(0, 0)) && fits_i32(
            self.at_spec(0, 1) - other.at_spec(0, 1),
        ));
        assert(fits_i32(self.at_spec(1, 0) - other.at_spec(1, 0)) && fits_i32(
            self.at_spec(1, 1) - other.at_spec(1, 1),
        ));
        Mat2f { x_axis: self.x_axis.sub(&other.x_axis), y_axis: self.y_axis.sub(&other.y_axis) }
    }

    /// Multiplies every entry by `a`.
    pub fn scalar_mul(&self, a: i32) -> (r: Mat2f)
        requires
            forall|c: int, r2: int|
                0 <= c < 2 && 0 <= r2 < 2 ==> fits_i32(#[trigger] self.at_spec(c, r2) * a),
        ensures
            forall|c: int, r2: int|
                0 <= c < 2 && 0 <= r2 < 2 ==> #[trigger] r.at_spec(c, r2) == self.at_spec(c, r2) * a,
    {
        assert(fits_i32(self.at_spec(0, 0) * a) && fits_i32(self.at_spec(0, 1) * a));
        assert(fits_i32(self.at_spec(1, 0) * a) && fits_i32(self.at_spec(1, 1) * a));
        Mat2f { x_axis: self.x_axis.mul(a), y_axis: self.y_axis.mul(a) }
    }

    /// Whether every entry differs from the matching entry of `other` by
    /// strictly less than `epsilon`.
    pub fn almost_equal(&self, other: &Mat2f, epsilon: i32) -> (r: bool)
        ensures
            r == forall|c: int, r2: int|
                0 <= c < 2 && 0 <= r2 < 2 ==> #[trigger] abs(self.at_spec(c, r2) - other.at_spec(c, r2))
                    < epsilon,
    {
        let e = epsilon as i64;
        let r = abs_diff(self.x_axis.x, other.x_axis.x) < e && abs_diff(self.x_axis.y, other.x_axis.y)
            < e && abs_diff(self.y_axis.x, other.y_axis.x) < e && abs_diff(
            self.y_axis.y,
            other.y_axis.y,
        ) < e;
        proof {
            if !r {
                if abs(self.at_spec(0, 0) - other.at_spec(0, 0)) >= epsilon {
                    assert(!(abs(self.at_spec(0, 0) - other.at_spec(0, 0)) < epsilon));
                } else if abs(self.at_spec(0, 1) - other.at_spec(0, 1)) >= epsilon {
                    assert(!(abs(self.at_spec(0, 1) - other.at_spec(0, 1)) < epsilon));
                } else if abs(self.at_spec(1, 0) - other.at_spec(1, 0)) >= epsilon {
                    assert(!(abs(self.at_spec(1, 0) - other.at_spec(1, 0)) < epsilon));
                } else {
                    assert(!(abs(self.at_spec(1, 1) - other.at_spec(1, 1)) < epsilon));
                }
            }
        }
        r
    }
}

/// The distance between two `i32` values.
fn abs_diff(a: i32, b: i32) -> (r: i64)
    ensures
        r == abs(a - b),
{
    let d = (a as i64) - (b as i64);
    if d < 0 {
        -d
    } else {
        d
    }
}

/// The row vector product with a matrix is the column vector product with its
/// transpose: `v * m == transpose(m) * v`.
pub proof fn lemma_left_prod_is_transposed_right_prod(m: Mat2f, t: Mat2f, v: (int, int))
    requires
        forall|c: int, r: int| 0 <= c < 2 && 0 <= r < 2 ==> #[trigger] t.at_spec(c, r) == m.at_spec(r, c),
    ensures
        m.left_prod_spec(v) == t.right_prod_spec(v),
{
    assert(t.at_spec(0, 0) == m.at_spec(0, 0) && t.at_spec(1, 0) == m.at_spec(0, 1));
    assert(t.at_spec(0, 1) == m.at_spec(1, 0) && t.at_spec(1, 1) == m.at_spec(1, 1));
    assert(v.0 * m.x_axis.x == m.x_axis.x * v.0 && v.1 * m.x_axis.y == m.x_axis.y * v.1) by (nonlinear_arith);
    assert(v.0 * m.y_axis.x == m.y_axis.x * v.0 && v.1 * m.y_axis.y == m.y_axis.y * v.1) by (nonlinear_arith);
}

/// Inversion is exact: where `m.inverted()` gives the adjugate `adj` and the
/// determinant `d != 0`, both `adj * m` and `m * adj` equal `d` times the
/// identity, so `adj / d` times `m` is the identity matrix in either order.
pub proof fn lemma_inverted_is_inverse(m: Mat2f, adj: Mat2f)
    requires
        m.det_spec() != 0,
        forall|c: int, r: int| 0 <= c < 2 && 0 <= r < 2 ==> #[trigger] adj.at_spec(c, r) == m.adj_at(c, r),
    ensures
        forall|c: int, r: int|
            0 <= c < 2 && 0 <= r < 2 ==> #[trigger] adj.mul_at(m, c, r) == (if c == r {
                m.det_spec()
            } else {
                0
            }),
        forall|c: int, r: int|
            0 <= c < 2 && 0 <= r < 2 ==> #[trigger] m.mul_at(adj, c, r) == (if c == r {
                m.det_spec()
            } else {
                0
            }),
{
    assert(adj.at_spec(0, 0) == m.adj_at(0, 0) && adj.at_spec(0, 1) == m.adj_at(0, 1));
    assert(adj.at_spec(1, 0) == m.adj_at(1, 0) && adj.at_spec(1, 1) == m.adj_at(1, 1));
    let (a, b, c, d) = (m.x_axis.x as int, m.x_axis.y as int, m.y_axis.x as int, m.y_axis.y as int);
    assert(d * a + (-c) * b == a * d - b * c) by (nonlinear_arith);
    assert(d * c + (-c) * d == 0) by (nonlinear_arith);
    assert((-b) * a + a * b == 0) by (nonlinear_arith);
    assert((-b) * c + a * d == a * d - b * c) by (nonlinear_arith);
    assert(a * d + c * (-b) == a * d - b * c) by (nonlinear_arith);
    assert(b * d + d * (-b) == 0) by (nonlinear_arith);
    assert(a * (-c) + c * a == 0) by (nonlinear_arith);
    assert(b * (-c) + d * a == a * d - b * c) by (nonlinear_arith);
}

} // verus!
