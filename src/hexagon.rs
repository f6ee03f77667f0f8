//! Hexagon-shaped regions of the hex grid.
use vstd::prelude::*;

use crate::hex::axial_to_cube_spec;
use crate::num::{abs, fits_i32};
use crate::vec2::Vec2;

verus! {

/// The cells within `radius` steps of `center`, both in axial coordinates.
#[derive(Debug, Clone, Copy, PartialEq, Eq, Structural)]
pub struct Hexagon {
    pub center: Vec2,
    pub radius: i32,
}

/// The cube form of the axial offset `p` has every component within
/// `[-radius, radius]`: the cell at offset `p` lies inside a hexagon of that
/// radius.
pub open spec fn within_radius(p: (int, int), radius: int) -> bool {
    let c = axial_to_cube_spec(p);
    abs(c.0) <= radius && abs(c.1) <= radius && abs(c.2) <= radius
}

/// The smallest `y` that `list_points` visits in column `x`.
pub open spec fn col_lo(radius: int, x: int) -> int {
    if -radius >= -x - radius {
        -radius
    } else {
        -x - radius
    }
}

/// The largest `y` that `list_points` visits in column `x`.
pub open spec fn col_hi(radius: int, x: int) -> int {
    if radius <= -x + radius {
        radius
    } else {
        -x + radius
    }
}

/// Twice the number of cells of a hexagon of `radius` in the columns before
/// `x` (for `-radius <= x <= radius + 1`).
pub open spec fn twice_cells_before(radius: int, x: int) -> int {
    if x <= 0 {
        let m = x + radius;
        2 * m * (radius + 1) + m * (m - 1)
    } else {
        2 * radius * (radius + 1) + radius * (radius - 1) + 2 * x * (2 * radius + 1) - x * (x - 1)
    }
}

/// Each column adds its number of cells to the running count.
proof fn lemma_twice_cells_step(radius: int, x: int)
    requires
        0 <= radius,
        -radius <= x <= radius,
    ensures
        twice_cells_before(radius, x + 1) == twice_cells_before(radius, x) + 2 * (col_hi(radius, x)
            - col_lo(radius, x) + 1),
{
    if x < 0 {
        let m = x + radius;
        assert(2 * (m + 1) * (radius + 1) + (m + 1) * m == 2 * m * (radius + 1) + m * (m - 1) + 2 * (
        radius + 1 + m)) by (nonlinear_arith);
    } else if x == 0 {
        assert(2 * 1 * (2 * radius + 1) - 1 * (1 - 1) == 2 * (2 * radius + 1)) by (nonlinear_arith);
    } else {
        assert(2 * (x + 1) * (2 * radius + 1) - (x + 1) * x == 2 * x * (2 * radius + 1) - x * (x - 1)
            + 2 * (2 * radius - x + 1)) by (nonlinear_arith);
    }
}

/// The order in which `list_points` lists cells: by increasing `x`, and
/// within a column by decreasing `y`.
pub open spec fn listed_before(a: Vec2, b: Vec2) -> bool {
    a.x < b.x || (a.x == b.x && a.y > b.y)
}

impl Hexagon {
    /// The axial offset of `p` from the center.
    pub open spec fn offset(self, p: Vec2) -> (int, int) {
        (p.x - self.center.x, p.y - self.center.y)
    }

    /// `p` lies inside this hexagon.
    pub open spec fn contains_spec(self, p: Vec2) -> bool {
        within_radius(self.offset(p), self.radius as int)
    }

    /// The hexagon of radius zero at the origin.
    pub fn new() -> (r: Self)
        ensures
            r.center == (Vec2 { x: 0, y: 0 }),
            r.radius == 0,
    {
        Hexagon { center: Vec2 { x: 0, y: 0 }, radius: 0 }
    }

    /// The hexagon of `radius` centered at `(radius, radius)`.
    pub fn from_radius(radius: i32) -> (r: Self)
        ensures
            r.center == (Vec2 { x: radius, y: radius }),
            r.radius == radius,
    {
        Hexagon { radius, center: Vec2 { x: radius, y: radius } }
    }

    /// Whether `point` lies inside this hexagon: the cube form of its offset
    /// from the center has every component within `[-radius, radius]`.
    pub fn contains(&self, point: &Vec2) -> (r: bool)
        ensures
            r == self.contains_spec(*point),
    {
        let x = (point.x as i64) - (self.center.x as i64);
        let z = (point.y as i64) - (self.center.y as i64);
        let y = -x - z;
        let r = self.radius as i64;
        -r <= x && x <= r && -r <= y && y <= r && -r <= z && z <= r
    }

    /// The cells of this hexagon, column by column: for each `x` in
    /// `-radius..=radius`, and each `y` from `max(-radius, -x - radius)` up to
    /// `min(radius, -x + radius)`, the cell at axial offset `(x, -x - y)` from
    /// the center. A hexagon of radius `r >= 0` has `3r^2 + 3r + 1` cells; one
    /// of negative radius has none.
    pub fn list_points(&self) -> (r: Vec<Vec2>)
        requires
            self.radius >= 0 ==> fits_i32(self.center.x - self.radius) && fits_i32(
                self.center.x + self.radius,
            ) && fits_i32(self.center.y - self.radius) && fits_i32(self.center.y + self.radius),
        ensures
            self.radius >= 0 ==> r@.len() == 3 * self.radius * self.radius + 3 * self.radius + 1,
            self.radius < 0 ==> r@.len() == 0,
            forall|k: int| 0 <= k < r@.len() ==> self.contains_spec(#[trigger] r@[k]),
            forall|p: Vec2| self.contains_spec(p) ==> r@.contains(p),
            forall|i: int, j: int|
                0 <= i < j < r@.len() ==> listed_before(#[trigger] r@[i], #[trigger] r@[j]),
    {
        let rad = self.radius as i64;
        let cx = self.center.x as i64;
        let cy = self.center.y as i64;
        let mut pts: Vec<Vec2> = Vec::new();
        let mut x: i64 = -rad;
        proof {
            if rad >= 0 {
                assert(twice_cells_before(rad as int, -rad) == 0) by (nonlinear_arith)
                    requires
                        rad >= 0,
                ;
            }
        }
        while x <= rad
            invariant
                rad == self.radius,
                cx == self.center.x,
                cy == self.center.y,
                rad >= 0 ==> fits_i32(cx - rad) && fits_i32(cx + rad) && fits_i32(cy - rad)
                    && fits_i32(cy + rad),
                rad < 0 ==> x == -rad && pts@.len() == 0,
                rad >= 0 ==> -rad <= x <= rad + 1,
                rad >= 0 ==> 2 * pts@.len() == twice_cells_before(rad as int, x as int),
                forall|k: int| 0 <= k < pts@.len() ==> self.contains_spec(#[trigger] pts@[k]),
                forall|p: Vec2|
                    self.contains_spec(p) && p.x - cx < x ==> #[trigger] pts@.contains(p),
                forall|k: int| 0 <= k < pts@.len() ==> #[trigger] pts@[k].x - cx < x,
                forall|i: int, j: int|
                    0 <= i < j < pts@.len() ==> listed_before(#[trigger] pts@[i], #[trigger] pts@[j]),
            decreases rad + 1 - x,
        {
            let lo = if -rad >= -x - rad {
                -rad
            } else {
                -x - rad
            };
            let hi = if rad <= -x + rad {
                rad
            } else {
                -x + rad
            };
            let mut y: i64 = lo;
            while y <= hi
                invariant
                    rad == self.radius,
                    cx == self.center.x,
                    cy == self.center.y,
                    fits_i32(cx - rad) && fits_i32(cx + rad) && fits_i32(cy - rad) && fits_i32(
                        cy + rad,
                    ),
                    0 <= rad,
                    -rad <= x <= rad,
                    lo == col_lo(rad as int, x as int),
                    hi == col_hi(rad as int, x as int),
                    lo <= y <= hi + 1,
                    2 * pts@.len() == twice_cells_before(rad as int, x as int) + 2 * (y - lo),
                    forall|k: int| 0 <= k < pts@.len() ==> self.contains_spec(#[trigger] pts@[k]),
                    forall|p: Vec2|
                        self.contains_spec(p) && (p.x - cx < x || (p.x - cx == x && -x - (p.y - cy)
                            < y)) ==> #[trigger] pts@.contains(p),
                    forall|k: int|
                        0 <= k < pts@.len() ==> #[trigger] pts@[k].x - cx < x || (pts@[k].x - cx == x
                            && -x - (pts@[k].y - cy) < y),
                    forall|i: int, j: int|
                        0 <= i < j < pts@.len() ==> listed_before(
                            #[trigger] pts@[i],
                            #[trigger] pts@[j],
                        ),
                decreases hi + 1 - y,
            {
                let pt = Vec2 { x: (x + cx) as i32, y: (-x - y + cy) as i32 };
                let ghost old_pts = pts@;
                pts.push(pt);
                proof {
                    assert(pts@[pts@.len() - 1] == pt);
                    assert forall|i: int, j: int|
                        0 <= i < j < pts@.len() implies listed_before(
                            #[trigger] pts@[i],
                            #[trigger] pts@[j],
                        ) by {
                        if j == pts@.len() - 1 {
                            assert(old_pts[i] == pts@[i]);
                        } else {
                            assert(old_pts[i] == pts@[i] && old_pts[j] == pts@[j]);
                        }
                    }
                    assert forall|k: int| 0 <= k < pts@.len() implies #[trigger] pts@[k].x - cx < x
                        || (pts@[k].x - cx == x && -x - (pts@[k].y - cy) < y + 1) by {
                        if k < old_pts.len() {
                            assert(old_pts[k] == pts@[k]);
                        }
                    }
                    assert forall|p: Vec2|
                        self.contains_spec(p) && (p.x - cx < x || (p.x - cx == x && -x - (p.y - cy)
                            < y + 1)) implies #[trigger] pts@.contains(p) by {
                        if p.x - cx == x && -x - (p.y - cy) == y {
                            assert(p == pt);
                            assert(pts@[pts@.len() - 1] == p);
                        } else {
                            assert(old_pts.contains(p));
                            let k = choose|k: int| 0 <= k < old_pts.len() && old_pts[k] == p;
                            assert(pts@[k] == p);
                        }
                    }
                }
                y += 1;
            }
            proof {
                lemma_twice_cells_step(rad as int, x as int);
            }
            x += 1;
        }
        proof {
            if rad >= 0 {
                assert(twice_cells_before(rad as int, rad + 1) == 2 * (3 * rad * rad + 3 * rad + 1))
                    by (nonlinear_arith)
                    requires
                        rad >= 0,
                ;
            }
        }
        pts
    }

    /// Sets the center and returns a copy of the result.
    pub fn with_center(&mut self, center: &Vec2) -> (r: Self)
        ensures
            *final(self) == (Hexagon { center: *center, radius: old(self).radius }),
            r == *final(self),
    {
        self.center = *center;
        *self
    }

    /// Moves the center by `offset` and returns a copy of the result.
    pub fn with_offset(&mut self, offset: &Vec2) -> (r: Self)
        requires
            fits_i32(old(self).center.x + offset.x),
            fits_i32(old(self).center.y + offset.y),
        ensures
            final(self).center@ == (old(self).center.x + offset.x, old(self).center.y + offset.y),
            final(self).radius == old(self).radius,
            r == *final(self),
    {
        self.center = self.center.add(offset);
        *self
    }

    /// Sets the radius and returns a copy of the result.
    pub fn with_radius(&mut self, radius: i32) -> (r: Self)
        ensures
            *final(self) == (Hexagon { center: old(self).center, radius }),
            r == *final(self),
    {
        self.radius = radius;
        *self
    }
}

} // verus!
