//! A free direction in space: translation does not move it, only the
//! linear part of a transform does.

use vstd::prelude::*;

use crate::coord::Coord;
use crate::num::fits;

verus! {

/// A direction with exact integer components.
#[derive(Debug, Clone, Copy, PartialEq, Eq, Structural)]
pub struct Vector {
    pub x: i64,
    pub y: i64,
    pub z: i64,
}

impl Vector {
    /// Builds a vector from its three components.
    pub fn new(x: i64, y: i64, z: i64) -> (v: Self)
        ensures
            v == (Vector { x, y, z }),
    {
        Vector { x, y, z }
    }

    /// The vector with every component negated.
    pub fn negate(self) -> (v: Self)
        requires
            self.x != i64::MIN,
            self.y != i64::MIN,
            self.z != i64::MIN,
        ensures
            v.x == -self.x,
            v.y == -self.y,
            v.z == -self.z,
    {
        Vector::new(-self.x, -self.y, -self.z)
    }

    /// The vector scaled component-wise by `rhs`.
    pub fn scalar_mult(self, rhs: i64) -> (v: Self)
        requires
            fits(self.x * rhs),
            fits(self.y * rhs),
            fits(self.z * rhs),
        ensures
            v.x == self.x * rhs,
            v.y == self.y * rhs,
            v.z == self.z * rhs,
    {
        Vector::new(self.x * rhs, self.y * rhs, self.z * rhs)
    }

    /// The dot product of `self` and `rhs`.
    pub open spec fn spec_dot(self, rhs: Vector) -> int {
        self.x * rhs.x + self.y * rhs.y + self.z * rhs.z
    }

    /// The sum of the component-wise products of the two vectors.
    pub fn dot(&self, rhs: &Vector) -> (r: i64)
        requires
            fits(self.x * rhs.x),
            fits(self.y * rhs.y),
            fits(self.z * rhs.z),
            fits(self.x * rhs.x + self.y * rhs.y),
            fits(self.spec_dot(*rhs)),
        ensures
            r == self.spec_dot(*rhs),
    {
        self.x * rhs.x + self.y * rhs.y + self.z * rhs.z
    }

    /// The cross product of `self` and `rhs`, by the usual determinant
    /// formula.
    pub fn cross_product(&self, rhs: &Vector) -> (v: Vector)
        requires
            fits(self.y * rhs.z),
            fits(self.z * rhs.y),
            fits(self.z * rhs.x),
            fits(self.x * rhs.z),
            fits(self.x * rhs.y),
            fits(self.y * rhs.x),
            fits(self.y * rhs.z - self.z * rhs.y),
            fits(self.z * rhs.x - self.x * rhs.z),
            fits(self.x * rhs.y - self.y * rhs.x),
        ensures
            v.x == self.y * rhs.z - self.z * rhs.y,
            v.y == self.z * rhs.x - self.x * rhs.z,
            v.z == self.x * rhs.y - self.y * rhs.x,
    {
        Vector::new(
            self.y * rhs.z - self.z * rhs.y,
            self.z * rhs.x - self.x * rhs.z,
            self.x * rhs.y - self.y * rhs.x,
        )
    }

    /// The vector that points from `from` to `to`.
    pub fn joining(from: Coord, to: Coord) -> (v: Vector)
        requires
            fits(to.x - from.x),
            fits(to.y - from.y),
            fits(to.z - from.z),
        ensures
            v.x == to.x - from.x,
            v.y == to.y - from.y,
            v.z == to.z - from.z,
    {
        Vector { x: to.x - from.x, y: to.y - from.y, z: to.z - from.z }
    }

    /// The component-wise difference of the two vectors.
    pub fn sub(&self, rhs: &Vector) -> (v: Vector)
        requires
            fits(self.x - rhs.x),
            fits(self.y - rhs.y),
            fits(self.z - rhs.z),
        ensures
            v.x == self.x - rhs.x,
            v.y == self.y - rhs.y,
            v.z == self.z - rhs.z,
    {
        Vector { x: self.x - rhs.x, y: self.y - rhs.y, z: self.z - rhs.z }
    }

    /// The reflection of `self` around the given normal:
    /// `self - normal * (2 * dot(self, normal))`.
    pub fn reflect(&self, around_normal: &Vector) -> (v: Vector)
        requires
            fits(self.x * around_normal.x),
            fits(self.y * around_normal.y),
            fits(self.z * around_normal.z),
            fits(self.x * around_normal.x + self.y * around_normal.y),
            fits(self.spec_dot(*around_normal)),
            fits(2 * self.spec_dot(*around_normal)),
            fits(around_normal.x * (2 * self.spec_dot(*around_normal))),
            fits(around_normal.y * (2 * self.spec_dot(*around_normal))),
            fits(around_normal.z * (2 * self.spec_dot(*around_normal))),
            fits(self.x - around_normal.x * (2 * self.spec_dot(*around_normal))),
            fits(self.y - around_normal.y * (2 * self.spec_dot(*around_normal))),
            fits(self.z - around_normal.z * (2 * self.spec_dot(*around_normal))),
        ensures
            v.x == self.x - around_normal.x * (2 * self.spec_dot(*around_normal)),
            v.y == self.y - around_normal.y * (2 * self.spec_dot(*around_normal)),
            v.z == self.z - around_normal.z * (2 * self.spec_dot(*around_normal)),
    {
        let dp = self.dot(around_normal);
        self.sub(&around_normal.scalar_mult(2 * dp))
    }

    /// The direction scaled axis by axis by the given factors.
    pub fn scale(&self, by: Coord) -> (v: Vector)
        requires
            fits(self.x * by.x),
            fits(self.y * by.y),
            fits(self.z * by.z),
        ensures
            v.x == self.x * by.x,
            v.y == self.y * by.y,
            v.z == self.z * by.z,
    {
        Vector::new(self.x * by.x, self.y * by.y, self.z * by.z)
    }

    /// Translation moves points but leaves free directions untouched:
    /// the result is `self`, whatever the offset.
    pub fn translate(&self, _by: Coord) -> (v: Self)
        ensures
            v == *self,
    {
        *self
    }
}

impl From<Coord> for Vector {
    /// Reads a position as the direction from the origin to it.
    fn from(c: Coord) -> (v: Self) {
        Vector { x: c.x, y: c.y, z: c.z }
    }
}

impl vstd::std_specs::convert::FromSpecImpl<Coord> for Vector {
    open spec fn obeys_from_spec() -> bool {
        true
    }

    open spec fn from_spec(c: Coord) -> Self {
        Vector { x: c.x, y: c.y, z: c.z }
    }
}

impl std::ops::Add<Vector> for Vector {
    type Output = Vector;

    /// Component-wise addition.
    fn add(self, rhs: Vector) -> (v: Vector) {
        Vector::new(self.x + rhs.x, self.y + rhs.y, self.z + rhs.z)
    }
}

impl vstd::std_specs::ops::AddSpecImpl<Vector> for Vector {
    open spec fn obeys_add_spec() -> bool {
        true
    }

    open spec fn add_req(self, rhs: Vector) -> bool {
        fits(self.x + rhs.x) && fits(self.y + rhs.y) && fits(self.z + rhs.z)
    }

    open spec fn add_spec(self, rhs: Vector) -> Vector {
        Vector {
            x: (self.x + rhs.x) as i64,
            y: (self.y + rhs.y) as i64,
            z: (self.z + rhs.z) as i64,
        }
    }
}

impl std::ops::Sub<Vector> for Vector {
    type Output = Vector;

    /// Component-wise subtraction.
    fn sub(self, rhs: Vector) -> (v: Vector) {
        Vector::new(self.x - rhs.x, self.y - rhs.y, self.z - rhs.z)
    }
}

impl vstd::std_specs::ops::SubSpecImpl<Vector> for Vector {
    open spec fn obeys_sub_spec() -> bool {
        true
    }

    open spec fn sub_req(self, rhs: Vector) -> bool {
        fits(self.x - rhs.x) && fits(self.y - rhs.y) && fits(self.z - rhs.z)
    }

    open spec fn sub_spec(self, rhs: Vector) -> Vector {
        Vector {
            x: (self.x - rhs.x) as i64,
            y: (self.y - rhs.y) as i64,
            z: (self.z - rhs.z) as i64,
        }
    }
}

} // verus!
