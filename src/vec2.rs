//! Two dimensional integer vectors.
use vstd::prelude::*;

use crate::num::{fits_i32, fits_i64, mul_i32, mul_i64};

verus! {

/// A two dimensional vector with exact integer components.
#[derive(Debug, Clone, Copy, PartialEq, Eq, Structural)]
pub struct Vec2 {
    pub x: i32,
    pub y: i32,
}

/// Both components of an integer pair fit in an `i32`.
pub open spec fn fits_i32_pair(t: (int, int)) -> bool {
    fits_i32(t.0) && fits_i32(t.1)
}

impl View for Vec2 {
    type V = (int, int);

    open spec fn view(&self) -> (int, int) {
        (self.x as int, self.y as int)
    }
}

impl From<[i32; 2]> for Vec2 {
    /// The vector `(v[0], v[1])`.
    fn from(v: [i32; 2]) -> (r: Self) {
        Vec2 { x: v[0], y: v[1] }
    }
}

impl vstd::std_specs::convert::FromSpecImpl<[i32; 2]> for Vec2 {
    open spec fn obeys_from_spec() -> bool {
        true
    }

    open spec fn from_spec(v: [i32; 2]) -> Self {
        Vec2 { x: v[0], y: v[1] }
    }
}

impl Vec2 {
    /// The dot product, as an unbounded integer.
    pub open spec fn dot_spec(self, other: Vec2) -> int {
        self.x * other.x + self.y * other.y
    }

    /// Twice the signed area of the triangle `abc`.
    pub open spec fn orient2d_spec(a: Vec2, b: Vec2, c: Vec2) -> int {
        (a.x - c.x) * (b.y - c.y) - (a.y - c.y) * (b.x - c.x)
    }

    pub fn new(x: i32, y: i32) -> (r: Self)
        ensures
            r.x == x,
            r.y == y,
    {
        Vec2 { x, y }
    }

    /// Exchanges the values of the two vectors.
    pub fn swap(&mut self, other: &mut Vec2)
        ensures
            *final(self) == *old(other),
            *final(other) == *old(self),
    {
        core::mem::swap(self, other);
    }

    /// The vector with its two components exchanged.
    pub fn transponent(&self) -> (r: Self)
        ensures
            r.x == self.y,
            r.y == self.x,
    {
        Vec2 { x: self.y, y: self.x }
    }

    pub fn dot(&self, other: &Vec2) -> (r: i64)
        requires
            fits_i64(self.dot_spec(*other)),
        ensures
            r == self.dot_spec(*other),
    {
        mul_i32(self.x, other.x) + mul_i32(self.y, other.y)
    }

    pub fn add(&self, other: &Vec2) -> (r: Self)
        requires
            fits_i32(self.x + other.x),
            fits_i32(self.y + other.y),
        ensures
            r.x == self.x + other.x,
            r.y == self.y + other.y,
    {
        Vec2 { x: self.x + other.x, y: self.y + other.y }
    }

    pub fn sub(&self, other: &Vec2) -> (r: Self)
        requires
            fits_i32(self.x - other.x),
            fits_i32(self.y - other.y),
        ensures
            r.x == self.x - other.x,
            r.y == self.y - other.y,
    {
        Vec2 { x: self.x - other.x, y: self.y - other.y }
    }

    /// Multiplies both components by `a`.
    pub fn mul(&self, a: i32) -> (r: Self)
        requires
            fits_i32(self.x * a),
            fits_i32(self.y * a),
        ensures
            r.x == self.x * a,
            r.y == self.y * a,
    {
        Vec2 { x: mul_i32(self.x, a) as i32, y: mul_i32(self.y, a) as i32 }
    }

    /// Component `i`: `x` or `y`.
    pub open spec fn get_spec(self, i: int) -> int {
        if i == 0 {
            self.x as int
        } else {
            self.y as int
        }
    }

    /// Component `i`: `x` or `y`.
    pub fn get(&self, i: usize) -> (r: i32)
        requires
            i < 2,
        ensures
            r == self.get_spec(i as int),
    {
        if i == 0 {
            self.x
        } else {
            self.y
        }
    }

    /// A mutable reference to component `i`.
    pub fn get_mut(&mut self, i: usize) -> (r: &mut i32)
        requires
            i < 2,
        ensures
            *r == old(self).get_spec(i as int),
            *final(self) == (if i == 0 {
                Vec2 { x: *final(r), y: old(self).y }
            } else {
                Vec2 { x: old(self).x, y: *final(r) }
            }),
    {
        if i == 0 {
            &mut self.x
        } else {
            &mut self.y
        }
    }

    /// Overwrites component `i`.
    pub fn set(&mut self, i: usize, val: i32)
        requires
            i < 2,
        ensures
            final(self).x == (if i == 0 {
                val
            } else {
                old(self).x
            }),
            final(self).y == (if i == 1 {
                val
            } else {
                old(self).y
            }),
    {
        if i == 0 {
            self.x = val;
        } else {
            self.y = val;
        }
    }

    /// Squared length of this vector.
    pub fn len_sq(&self) -> (r: i64)
        requires
            fits_i64(self.dot_spec(*self)),
        ensures
            r == self.dot_spec(*self),
    {
        self.dot(self)
    }

    /// Returns twice the signed area of the triangle `abc`: positive when `c`
    /// lies to the left of the directed line `ab`, negative when it lies to the
    /// right, and zero when the three points are collinear.
    pub fn orient2d(a: &Vec2, b: &Vec2, c: &Vec2) -> (r: i64)
        requires
            fits_i64(Self::orient2d_spec(*a, *b, *c)),
        ensures
            r == Self::orient2d_spec(*a, *b, *c),
    {
        let acx = (a.x as i64) - (c.x as i64);
        let bcy = (b.y as i64) - (c.y as i64);
        let acy = (a.y as i64) - (c.y as i64);
        let bcx = (b.x as i64) - (c.x as i64);
        let p = mul_i64(acx, bcy);
        let q = mul_i64(acy, bcx);
        (p - q) as i64
    }
}

} // verus!
