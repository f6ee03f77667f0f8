//! Exact integer vectors, small matrices and hex-grid coordinates.
//!
//! Every vector and matrix component is an `i32`. Scalars that grow faster
//! than the components are returned wider: dot products and 2 by 2
//! determinants as `i64`, 3 by 3 determinants as `i128`. An operation whose
//! result is stored in components requires that the exact result fits, so no
//! operation wraps or saturates.
//!
//! Matrices are stored by column; `at(col, row)` reads component `row` of
//! column `col`. `left_prod(v)` is the row vector product `v * M` and
//! `right_prod(v)` the column vector product `M * v`. Inversion is exact: it
//! returns the adjugate together with the determinant, whose quotient is the
//! inverse.
//!
//! On the hex grid a cell has cube coordinates `(x, y, z)` with
//! `x + y + z == 0`, or axial coordinates `(x, z)`. Fractional positions are
//! integer numerators over a positive denominator.
use vstd::prelude::*;

pub mod bulk;
pub mod hex;
pub mod hexagon;
pub mod mat2;
pub mod mat3;
pub mod mat3_upper;
pub mod num;
pub mod vec2;
pub mod vec3;

pub use bulk::{Array2f, Tensor3f};
pub use hexagon::Hexagon;
pub use mat2::Mat2f;
pub use mat3::Mat3f;
pub use mat3_upper::{UpperMatrix, UpperMatrixError};
pub use vec2::Vec2;
pub use vec3::Vec3;

verus! {

} // verus!
