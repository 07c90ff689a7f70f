//! A ray: an origin and a direction, parameterized along a line.

use vstd::prelude::*;

use crate::coord::Coord;
use crate::num::fits;
use crate::vector::Vector;

verus! {

/// A half-line through space.
#[derive(Debug, Clone, Copy, PartialEq, Eq, Structural)]
pub struct Ray {
    pub origin: Coord,
    pub dir: Vector,
}

impl Ray {
    /// Builds a ray from its origin and direction.
    pub fn new(origin: Coord, dir: Vector) -> (r: Self)
        ensures
            r == (Ray { origin, dir }),
    {
        Ray { origin, dir }
    }

    /// The point reached after walking `t` steps of the direction from
    /// the origin.
    pub fn position_at(&self, t: i64) -> (c: Coord)
        requires
            fits(self.dir.x * t),
            fits(self.dir.y * t),
            fits(self.dir.z * t),
            fits(self.origin.x + self.dir.x * t),
            fits(self.origin.y + self.dir.y * t),
            fits(self.origin.z + self.dir.z * t),
        ensures
            c.x == self.origin.x + self.dir.x * t,
            c.y == self.origin.y + self.dir.y * t,
            c.z == self.origin.z + self.dir.z * t,
    {
        self.origin.add_vector(&self.dir.scalar_mult(t))
    }

    /// Moves the origin by `by`; the direction, being free, stays put.
    pub fn translate(&self, by: Coord) -> (r: Ray)
        requires
            fits(self.origin.x + by.x),
            fits(self.origin.y + by.y),
            fits(self.origin.z + by.z),
        ensures
            r.origin.x == self.origin.x + by.x,
            r.origin.y == self.origin.y + by.y,
            r.origin.z == self.origin.z + by.z,
            r.dir == self.dir,
    {
        let new_origin = Coord::new(self.origin.x + by.x, self.origin.y + by.y, self.origin.z + by.z);
        Ray::new(new_origin, self.dir)
    }

    /// Scales both the origin and the direction component-wise.
    pub fn scale(&self, by: Coord) -> (r: Ray)
        requires
            fits(self.origin.x * by.x),
            fits(self.origin.y * by.y),
            fits(self.origin.z * by.z),
            fits(self.dir.x * by.x),
            fits(self.dir.y * by.y),
            fits(self.dir.z * by.z),
        ensures
            r.origin.x == self.origin.x * by.x,
            r.origin.y == self.origin.y * by.y,
            r.origin.z == self.origin.z * by.z,
            r.dir.x == self.dir.x * by.x,
            r.dir.y == self.dir.y * by.y,
            r.dir.z == self.dir.z * by.z,
    {
        Ray::new(
            Coord::new(self.origin.x * by.x, self.origin.y * by.y, self.origin.z * by.z),
            Vector::new(self.dir.x * by.x, self.dir.y * by.y, self.dir.z * by.z),
        )
    }
}

} // verus!
