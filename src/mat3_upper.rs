//! Upper-triangular 3 by 3 integer matrices, stored without the zero entries.
use vstd::prelude::*;

use crate::mat3::Mat3f;
use crate::num::{fits_i32, mul_i32};
use crate::vec3::{dot3, Vec3};

verus! {

/// An upper-triangular 3 by 3 matrix: every entry below the diagonal is zero
/// and is not stored. `values.0` holds row 0 (columns 0 to 2), `values.1` row 1
/// (columns 1 and 2) and `values.2` row 2 (column 2).
#[derive(Debug, Clone, Copy)]
pub struct UpperMatrix {
    pub values: ([i32; 3], [i32; 2], [i32; 1]),
}

/// Why a matrix cannot be held as an `UpperMatrix`.
#[derive(Debug, Clone, Copy, PartialEq, Eq, Structural)]
pub enum UpperMatrixError {
    /// An entry below the diagonal is not zero.
    MatrixNotTriangle,
}

impl PartialEq for UpperMatrix {
    fn eq(&self, o: &UpperMatrix) -> (r: bool) {
        let (a, b) = (self.values, o.values);
        let r = a.0[0] == b.0[0] && a.0[1] == b.0[1] && a.0[2] == b.0[2] && a.1[0] == b.1[0] && a.1[1]
            == b.1[1] && a.2[0] == b.2[0];
        proof {
            if r {
                assert(a.0 =~= b.0);
                assert(a.1 =~= b.1);
                assert(a.2 =~= b.2);
            }
        }
        r
    }
}

impl vstd::std_specs::cmp::PartialEqSpecImpl for UpperMatrix {
    open spec fn obeys_eq_spec() -> bool {
        true
    }

    open spec fn eq_spec(&self, o: &UpperMatrix) -> bool {
        self.values == o.values
    }
}

impl Default for UpperMatrix {
    /// The all-zero matrix.
    fn default() -> (r: Self)
        ensures
            forall|c: int, r2: int| 0 <= c < 3 && 0 <= r2 < 3 ==> #[trigger] r.full_at(c, r2) == 0,
    {
        UpperMatrix { values: ([0, 0, 0], [0, 0], [0]) }
    }
}

impl UpperMatrix {
    /// The entry in column `c` and row `r`, zero below the diagonal.
    pub open spec fn full_at(self, c: int, r: int) -> int {
        if r > c {
            0
        } else if r == 0 {
            self.values.0[c] as int
        } else if r == 1 {
            self.values.1[c - 1] as int
        } else {
            self.values.2[c - 2] as int
        }
    }

    /// Row `r` of the full matrix.
    pub open spec fn full_row(self, r: int) -> (int, int, int) {
        (self.full_at(0, r), self.full_at(1, r), self.full_at(2, r))
    }

    /// Column `c` of the full matrix.
    pub open spec fn full_col(self, c: int) -> (int, int, int) {
        (self.full_at(c, 0), self.full_at(c, 1), self.full_at(c, 2))
    }

    /// The entry in column `c` and row `r` of the product `self * b`.
    pub open spec fn mul_at(self, b: UpperMatrix, c: int, r: int) -> int {
        dot3(self.full_row(r), b.full_col(c))
    }

    /// The column vector product `self * v`.
    pub open spec fn right_prod_spec(self, v: (int, int, int)) -> (int, int, int) {
        (dot3(self.full_row(0), v), dot3(self.full_row(1), v), dot3(self.full_row(2), v))
    }

    /// A matrix with no nonzero entry below the diagonal, in compact form.
    pub fn from_mat(mat: &Mat3f) -> (r: Result<Self, UpperMatrixError>)
        ensures
            r is Err <==> (mat.at_spec(0, 1) != 0 || mat.at_spec(0, 2) != 0 || mat.at_spec(1, 2)
                != 0),
            r matches Err(e) ==> e == UpperMatrixError::MatrixNotTriangle,
            r matches Ok(u) ==> forall|c: int, r2: int|
                0 <= c < 3 && 0 <= r2 < 3 ==> #[trigger] u.full_at(c, r2) == mat.at_spec(c, r2),
    {
        if mat.at(0, 1) != 0 || mat.at(0, 2) != 0 || mat.at(1, 2) != 0 {
            return Err(UpperMatrixError::MatrixNotTriangle);
        }
        let u = UpperMatrix {
            values: (
                [mat.at(0, 0), mat.at(1, 0), mat.at(2, 0)],
                [mat.at(1, 1), mat.at(2, 1)],
                [mat.at(2, 2)],
            ),
        };
        Ok(u)
    }

    /// The uniform scale: `a` on the whole diagonal.
    pub fn scale(a: i32) -> (r: Self)
        ensures
            forall|c: int, r2: int|
                0 <= c < 3 && 0 <= r2 < 3 ==> #[trigger] r.full_at(c, r2) == (if c == r2 {
                    a as int
                } else {
                    0
                }),
    {
        UpperMatrix { values: ([a, 0, 0], [a, 0], [a]) }
    }

    /// Exchanges the values of the two matrices.
    pub fn swap(&mut self, other: &mut UpperMatrix)
        ensures
            *final(self) == *old(other),
            *final(other) == *old(self),
    {
        core::mem::swap(self, other);
    }

    /// The entry in column `col` and row `row`, on or above the diagonal.
    pub fn at(&self, col: usize, row: usize) -> (r: i32)
        requires
            row <= col < 3,
        ensures
            r == self.full_at(col as int, row as int),
    {
        if row == 0 {
            self.values.0[col]
        } else if row == 1 {
            self.values.1[col - 1]
        } else {
            self.values.2[col - 2]
        }
    }

    /// A mutable reference to the entry in column `col` and row `row`, on or
    /// above the diagonal.
    pub fn at_mut(&mut self, col: usize, row: usize) -> (r: &mut i32)
        requires
            row <= col < 3,
        ensures
            *r == old(self).full_at(col as int, row as int),
            forall|c: int, r2: int|
                0 <= c < 3 && 0 <= r2 < 3 ==> #[trigger] final(self).full_at(c, r2) == if c == col
                    && r2 == row {
                    *final(r) as int
                } else {
                    old(self).full_at(c, r2)
                },
    {
        if row == 0 {
            &mut self.values.0[col]
        } else if row == 1 {
            &mut self.values.1[col - 1]
        } else {
            &mut self.values.2[col - 2]
        }
    }

    /// Overwrites the entry in column `col` and row `row`, on or above the
    /// diagonal.
    pub fn set(&mut self, col: usize, row: usize, val: i32)
        requires
            row <= col < 3,
        ensures
            forall|c: int, r: int|
                0 <= c < 3 && 0 <= r < 3 ==> #[trigger] final(self).full_at(c, r) == if c == col
                    && r == row {
                    val as int
                } else {
                    old(self).full_at(c, r)
                },
    {
        if row == 0 {
            self.values.0[col] = val;
        } else if row == 1 {
            self.values.1[col - 1] = val;
        } else {
            self.values.2[col - 2] = val;
        }
    }

    /// The column vector product `self * v`.
    pub fn right_prod(&self, v: [i32; 3]) -> (r: [i32; 3])
        requires
            fits_i32(self.right_prod_spec((v[0] as int, v[1] as int, v[2] as int)).0),
            fits_i32(self.right_prod_spec((v[0] as int, v[1] as int, v[2] as int)).1),
            fits_i32(self.right_prod_spec((v[0] as int, v[1] as int, v[2] as int)).2),
        ensures
            (r[0] as int, r[1] as int, r[2] as int) == self.right_prod_spec(
                (v[0] as int, v[1] as int, v[2] as int),
            ),
    {
        let w = Vec3 { x: v[0], y: v[1], z: v[2] };
        let r0 = Vec3 { x: self.values.0[0], y: self.values.0[1], z: self.values.0[2] };
        let r1 = Vec3 { x: 0, y: self.values.1[0], z: self.values.1[1] };
        let r2 = Vec3 { x: 0, y: 0, z: self.values.2[0] };
        [r0.dot(&w) as i32, r1.dot(&w) as i32, r2.dot(&w) as i32]
    }

    /// Computes the product `self * b` into `c`.
    pub fn mat_mul(&self, b: &Self, c: &mut Self)
        requires
            forall|col: int, row: int|
                0 <= row <= col < 3 ==> fits_i32(#[trigger] self.mul_at(*b, col, row)),
        ensures
            forall|col: int, row: int|
                0 <= col < 3 && 0 <= row < 3 ==> #[trigger] final(c).full_at(col, row)
                    == self.mul_at(*b, col, row),
    {
        assert(fits_i32(self.mul_at(*b, 0, 0)) && fits_i32(self.mul_at(*b, 1, 0)) && fits_i32(
            self.mul_at(*b, 2, 0),
        ));
        assert(fits_i32(self.mul_at(*b, 1, 1)) && fits_i32(self.mul_at(*b, 2, 1)) && fits_i32(
            self.mul_at(*b, 2, 2),
        ));
        let a0 = Vec3 { x: self.values.0[0], y: self.values.0[1], z: self.values.0[2] };
        let a1 = Vec3 { x: 0, y: self.values.1[0], z: self.values.1[1] };
        let a2 = Vec3 { x: 0, y: 0, z: self.values.2[0] };
        let b0 = Vec3 { x: b.values.0[0], y: 0, z: 0 };
        let b1 = Vec3 { x: b.values.0[1], y: b.values.1[0], z: 0 };
        let b2 = Vec3 { x: b.values.0[2], y: b.values.1[1], z: b.values.2[0] };
        c.values = (
            [a0.dot(&b0) as i32, a0.dot(&b1) as i32, a0.dot(&b2) as i32],
            [a1.dot(&b1) as i32, a1.dot(&b2) as i32],
            [a2.dot(&b2) as i32],
        );
    }

    /// Multiplies every entry by `a`.
    pub fn scalar_mul(&self, a: i32) -> (r: Self)
        requires
            forall|c: int, r2: int|
                0 <= r2 <= c < 3 ==> fits_i32(#[trigger] self.full_at(c, r2) * a),
        ensures
            forall|c: int, r2: int|
                0 <= c < 3 && 0 <= r2 < 3 ==> #[trigger] r.full_at(c, r2) == self.full_at(c, r2) * a,
    {
        assert(fits_i32(self.full_at(0, 0) * a) && fits_i32(self.full_at(1, 0) * a) && fits_i32(
            self.full_at(2, 0) * a,
        ));
        assert(fits_i32(self.full_at(1, 1) * a) && fits_i32(self.full_at(2, 1) * a) && fits_i32(
            self.full_at(2, 2) * a,
        ));
        let v = self.values;
        UpperMatrix {
            values: (
                [
                    mul_i32(v.0[0], a) as i32,
                    mul_i32(v.0[1], a) as i32,
                    mul_i32(v.0[2], a) as i32,
                ],
                [mul_i32(v.1[0], a) as i32, mul_i32(v.1[1], a) as i32],
                [mul_i32(v.2[0], a) as i32],
            ),
        }
    }

    /// The 2D translation by `(x, y)`: for a homogeneous point `p` with last
    /// component one, `translate(t) * p == p + t`.
    pub fn translate(t: [i32; 2]) -> (r: Self)
        ensures
            r.full_row(0) == (1int, 0int, t[0] as int),
            r.full_row(1) == (0int, 1int, t[1] as int),
            r.full_row(2) == (0int, 0int, 1int),
    {
        UpperMatrix { values: ([1, 0, t[0]], [1, t[1]], [1]) }
    }
}

} // verus!
