//! Three dimensional integer vectors.
use vstd::prelude::*;

use crate::num::{fits_i32, fits_i64, mul_i32};
use crate::vec2::Vec2;

verus! {

/// A three dimensional vector with exact integer components.
#[derive(Debug, Clone, Copy, PartialEq, Eq, Structural)]
pub struct Vec3 {
    pub x: i32,
    pub y: i32,
    pub z: i32,
}

/// The dot product of two integer triples.
pub open spec fn dot3(a: (int, int, int), b: (int, int, int)) -> int {
    a.0 * b.0 + a.1 * b.1 + a.2 * b.2
}

/// The cross product of two integer triples.
pub open spec fn cross3(a: (int, int, int), b: (int, int, int)) -> (int, int, int) {
    (a.1 * b.2 - a.2 * b.1, a.2 * b.0 - a.0 * b.2, a.0 * b.1 - a.1 * b.0)
}

/// All three components of an integer triple fit in an `i32`.
pub open spec fn fits_i32_triple(t: (int, int, int)) -> bool {
    fits_i32(t.0) && fits_i32(t.1) && fits_i32(t.2)
}

impl View for Vec3 {
    type V = (int, int, int);

    open spec fn view(&self) -> (int, int, int) {
        (self.x as int, self.y as int, self.z as int)
    }
}

impl From<[i32; 3]> for Vec3 {
    /// The vector `(v[0], v[1], v[2])`.
    fn from(v: [i32; 3]) -> (r: Self) {
        Vec3 { x: v[0], y: v[1], z: v[2] }
    }
}

impl vstd::std_specs::convert::FromSpecImpl<[i32; 3]> for Vec3 {
    open spec fn obeys_from_spec() -> bool {
        true
    }

    open spec fn from_spec(v: [i32; 3]) -> Self {
        Vec3 { x: v[0], y: v[1], z: v[2] }
    }
}

impl Vec3 {
    pub fn new(x: i32, y: i32, z: i32) -> (r: Self)
        ensures
            r.x == x,
            r.y == y,
            r.z == z,
    {
        Vec3 { x, y, z }
    }

    /// The scalar triple product `[u v w] = (u x v) . w`, the determinant of
    /// the matrix with columns `u`, `v` and `w`.
    pub fn scalar_triple(u: &Vec3, v: &Vec3, w: &Vec3) -> (r: i64)
        requires
            fits_i32_triple(cross3(u@, v@)),
            fits_i64(dot3(cross3(u@, v@), w@)),
        ensures
            r == dot3(cross3(u@, v@), w@),
    {
        u.cross(v).dot(w)
    }

    /// Exchanges the values of the two vectors.
    pub fn swap(&mut self, other: &mut Vec3)
        ensures
            *final(self) == *old(other),
            *final(other) == *old(self),
    {
        core::mem::swap(self, other);
    }

    pub fn dot(&self, other: &Vec3) -> (r: i64)
        requires
            fits_i64(dot3(self@, other@)),
        ensures
            r == dot3(self@, other@),
    {
        let s = (mul_i32(self.x, other.x) as i128) + (mul_i32(self.y, other.y) as i128) + (mul_i32(
            self.z,
            other.z,
        ) as i128);
        s as i64
    }

    pub fn cross(&self, other: &Vec3) -> (r: Self)
        requires
            fits_i32_triple(cross3(self@, other@)),
        ensures
            r@ == cross3(self@, other@),
    {
        let x = mul_i32(self.y, other.z) - mul_i32(self.z, other.y);
        let y = mul_i32(self.z, other.x) - mul_i32(self.x, other.z);
        let z = mul_i32(self.x, other.y) - mul_i32(self.y, other.x);
        Vec3 { x: x as i32, y: y as i32, z: z as i32 }
    }

    pub fn add(&self, other: &Vec3) -> (r: Self)
        requires
            fits_i32_triple((self.x + other.x, self.y + other.y, self.z + other.z)),
        ensures
            r@ == (self.x + other.x, self.y + other.y, self.z + other.z),
    {
        Vec3 { x: self.x + other.x, y: self.y + other.y, z: self.z + other.z }
    }

    pub fn sub(&self, other: &Vec3) -> (r: Self)
        requires
            fits_i32_triple((self.x - other.x, self.y - other.y, self.z - other.z)),
        ensures
            r@ == (self.x - other.x, self.y - other.y, self.z - other.z),
    {
        Vec3 { x: self.x - other.x, y: self.y - other.y, z: self.z - other.z }
    }

    /// Multiplies every component by `a`.
    pub fn mul(&self, a: i32) -> (r: Self)
        requires
            fits_i32_triple((self.x * a, self.y * a, self.z * a)),
        ensures
            r@ == (self.x * a, self.y * a, self.z * a),
    {
        Vec3 {
            x: mul_i32(self.x, a) as i32,
            y: mul_i32(self.y, a) as i32,
            z: mul_i32(self.z, a) as i32,
        }
    }

    /// Component `i`: `x`, `y` or `z`.
    pub open spec fn get_spec(self, i: int) -> int {
        if i == 0 {
            self.x as int
        } else if i == 1 {
            self.y as int
        } else {
            self.z as int
        }
    }

    /// Component `i`: `x`, `y` or `z`.
    pub fn get(&self, i: usize) -> (r: i32)
        requires
            i < 3,
        ensures
            r == self.get_spec(i as int),
    {
        if i == 0 {
            self.x
        } else if i == 1 {
            self.y
        } else {
            self.z
        }
    }

    /// A mutable reference to component `i`.
    pub fn get_mut(&mut self, i: usize) -> (r: &mut i32)
        requires
            i < 3,
        ensures
            *r == old(self).get_spec(i as int),
            *final(self) == (if i == 0 {
                Vec3 { x: *final(r), y: old(self).y, z: old(self).z }
            } else if i == 1 {
                Vec3 { x: old(self).x, y: *final(r), z: old(self).z }
            } else {
                Vec3 { x: old(self).x, y: old(self).y, z: *final(r) }
            }),
    {
        if i == 0 {
            &mut self.x
        } else if i == 1 {
            &mut self.y
        } else {
            &mut self.z
        }
    }

    /// Overwrites component `i`.
    pub fn set(&mut self, i: usize, val: i32)
        requires
            i < 3,
        ensures
            final(self)@ == (if i == 0 {
                (val as int, old(self).y as int, old(self).z as int)
            } else if i == 1 {
                (old(self).x as int, val as int, old(self).z as int)
            } else {
                (old(self).x as int, old(self).y as int, val as int)
            }),
    {
        if i == 0 {
            self.x = val;
        } else if i == 1 {
            self.y = val;
        } else {
            self.z = val;
        }
    }

    /// Squared length of this vector.
    pub fn len_sq(&self) -> (r: i64)
        requires
            fits_i64(dot3(self@, self@)),
        ensures
            r == dot3(self@, self@),
    {
        self.dot(self)
    }
}

impl Vec2 {
    /// The displacement `(x, y, 0)`.
    pub fn to_3d_vector(&self) -> (r: Vec3)
        ensures
            r@ == (self.x as int, self.y as int, 0int),
    {
        Vec3 { x: self.x, y: self.y, z: 0 }
    }

    /// The homogeneous point `(x, y, w)`; `w` defaults to zero.
    pub fn extend(&self, w: Option<i32>) -> (r: Vec3)
        ensures
            r.x == self.x,
            r.y == self.y,
            r.z == (match w {
                Some(v) => v,
                None => 0i32,
            }),
    {
        let z = match w {
            Some(v) => v,
            None => 0,
        };
        Vec3 { x: self.x, y: self.y, z }
    }
}

} // verus!
