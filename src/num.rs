//! Range predicates shared by the numeric types.
use vstd::prelude::*;

verus! {

/// `v` is representable as an `i32`.
pub open spec fn fits_i32(v: int) -> bool {
    i32::MIN <= v <= i32::MAX
}

/// `v` is representable as an `i64`.
pub open spec fn fits_i64(v: int) -> bool {
    i64::MIN <= v <= i64::MAX
}

/// The absolute value of an integer.
pub open spec fn abs(v: int) -> int {
    if v < 0 {
        -v
    } else {
        v
    }
}

/// The exact product of two `i32` values.
pub fn mul_i32(a: i32, b: i32) -> (r: i64)
    ensures
        r == a * b,
        -0x3fff_ffff_8000_0000 <= r <= 0x4000_0000_0000_0000,
{
    proof {
        lemma_mul_bound(a as int, b as int, 0x8000_0000);
        assert(a * b >= -0x3fff_ffff_8000_0000) by (nonlinear_arith)
            requires
                -0x8000_0000 <= a < 0x8000_0000,
                -0x8000_0000 <= b < 0x8000_0000,
        ;
    }
    (a as i64) * (b as i64)
}

/// The exact product of two `i64` values.
pub fn mul_i64(a: i64, b: i64) -> (r: i128)
    ensures
        r == a * b,
        -0x4000_0000_0000_0000_0000_0000_0000_0000 <= r <= 0x4000_0000_0000_0000_0000_0000_0000_0000,
{
    proof {
        lemma_mul_bound(a as int, b as int, 0x8000_0000_0000_0000);
    }
    (a as i128) * (b as i128)
}

/// A product of two factors bounded by `m` in magnitude is bounded by `m * m`.
pub proof fn lemma_mul_bound(a: int, b: int, m: int)
    requires
        -m <= a <= m,
        -m <= b <= m,
    ensures
        -(m * m) <= a * b <= m * m,
{
    lemma_mul_bounds(a, b, m, m);
}

/// A product of factors bounded by `ma` and `mb` in magnitude is bounded by
/// `ma * mb`.
pub proof fn lemma_mul_bounds(a: int, b: int, ma: int, mb: int)
    requires
        -ma <= a <= ma,
        -mb <= b <= mb,
    ensures
        -(ma * mb) <= a * b <= ma * mb,
{
    assert(-(ma * mb) <= a * b <= ma * mb) by (nonlinear_arith)
        requires
            -ma <= a <= ma,
            -mb <= b <= mb,
    ;
}

/// The exact product of an `i32` and an `i64`.
pub fn mul_i32_i64(a: i32, b: i64) -> (r: i128)
    ensures
        r == a * b,
        -0x4000_0000_0000_0000_0000_0000 <= r <= 0x4000_0000_0000_0000_0000_0000,
{
    proof {
        lemma_mul_bounds(a as int, b as int, 0x8000_0000, 0x8000_0000_0000_0000);
    }
    (a as i128) * (b as i128)
}

} // verus!
