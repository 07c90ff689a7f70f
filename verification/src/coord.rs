//! A position in space: unlike a free direction, translation moves it.

use vstd::prelude::*;

use crate::num::fits;
use crate::vector::Vector;

verus! {

/// A point with exact integer coordinates.
#[derive(Debug, Clone, Copy, PartialEq, Eq, Structural)]
pub struct Coord {
    pub x: i64,
    pub y: i64,
    pub z: i64,
}

impl Coord {
    /// Builds a point from its three coordinates.
    pub fn new(x: i64, y: i64, z: i64) -> (c: Self)
        ensures
            c == (Coord { x, y, z }),
    {
        Coord { x, y, z }
    }

    /// The point with every coordinate negated.
    pub fn negate(self) -> (c: Self)
        requires
            self.x != i64::MIN,
            self.y != i64::MIN,
            self.z != i64::MIN,
        ensures
            c.x == -self.x,
            c.y == -self.y,
            c.z == -self.z,
    {
        Coord::new(-self.x, -self.y, -self.z)
    }

    /// The point scaled component-wise by `rhs`.
    pub fn scalar_mult(self, rhs: i64) -> (c: Self)
        requires
            fits(self.x * rhs),
            fits(self.y * rhs),
            fits(self.z * rhs),
        ensures
            c.x == self.x * rhs,
            c.y == self.y * rhs,
            c.z == self.z * rhs,
    {
        Coord::new(self.x * rhs, self.y * rhs, self.z * rhs)
    }

    /// The vector that points from `self` to `to`: only the difference
    /// of two points is a direction.
    pub fn vector_to(self, to: &Coord) -> (v: Vector)
        requires
            fits(to.x - self.x),
            fits(to.y - self.y),
            fits(to.z - self.z),
        ensures
            v.x == to.x - self.x,
            v.y == to.y - self.y,
            v.z == to.z - self.z,
    {
        Vector::new(to.x - self.x, to.y - self.y, to.z - self.z)
    }

    /// The point reached from `self` by walking along `vec`.
    pub fn add_vector(&self, vec: &Vector) -> (c: Coord)
        requires
            fits(self.x + vec.x),
            fits(self.y + vec.y),
            fits(self.z + vec.z),
        ensures
            c.x == self.x + vec.x,
            c.y == self.y + vec.y,
            c.z == self.z + vec.z,
    {
        Coord::new(self.x + vec.x, self.y + vec.y, self.z + vec.z)
    }

    /// The point moved by the given offset: translation acts on
    /// positions.
    pub fn translate(&self, by: Coord) -> (c: Coord)
        requires
            fits(self.x + by.x),
            fits(self.y + by.y),
            fits(self.z + by.z),
        ensures
            c.x == self.x + by.x,
            c.y == self.y + by.y,
            c.z == self.z + by.z,
    {
        Coord::new(self.x + by.x, self.y + by.y, self.z + by.z)
    }

    /// The point scaled axis by axis by the given factors.
    pub fn scale(&self, by: Coord) -> (c: Coord)
        requires
            fits(self.x * by.x),
            fits(self.y * by.y),
            fits(self.z * by.z),
        ensures
            c.x == self.x * by.x,
            c.y == self.y * by.y,
            c.z == self.z * by.z,
    {
        Coord::new(self.x * by.x, self.y * by.y, self.z * by.z)
    }

    /// The point reached from `self` by walking against `vec`.
    pub fn subtract_vector(&self, vec: &Vector) -> (c: Coord)
        requires
            fits(self.x - vec.x),
            fits(self.y - vec.y),
            fits(self.z - vec.z),
        ensures
            c.x == self.x - vec.x,
            c.y == self.y - vec.y,
            c.z == self.z - vec.z,
    {
        Coord::new(self.x - vec.x, self.y - vec.y, self.z - vec.z)
    }
}

impl std::ops::Add<Vector> for Coord {
    type Output = Coord;

    /// Walking from a point along a direction lands on a point.
    fn add(self, vec: Vector) -> (c: Coord) {
        Coord::new(self.x + vec.x, self.y + vec.y, self.z + vec.z)
    }
}

impl vstd::std_specs::ops::AddSpecImpl<Vector> for Coord {
    open spec fn obeys_add_spec() -> bool {
        true
    }

    open spec fn add_req(self, vec: Vector) -> bool {
        fits(self.x + vec.x) && fits(self.y + vec.y) && fits(self.z + vec.z)
    }

    open spec fn add_spec(self, vec: Vector) -> Coord {
        Coord {
            x: (self.x + vec.x) as i64,
            y: (self.y + vec.y) as i64,
            z: (self.z + vec.z) as i64,
        }
    }
}

impl std::ops::Sub<Vector> for Coord {
    type Output = Coord;

    /// Walking from a point against a direction lands on a point.
    fn sub(self, vec: Vector) -> (c: Coord) {
        Coord::new(self.x - vec.x, self.y - vec.y, self.z - vec.z)
    }
}

impl vstd::std_specs::ops::SubSpecImpl<Vector> for Coord {
    open spec fn obeys_sub_spec() -> bool {
        true
    }

    open spec fn sub_req(self, vec: Vector) -> bool {
        fits(self.x - vec.x) && fits(self.y - vec.y) && fits(self.z - vec.z)
    }

    open spec fn sub_spec(self, vec: Vector) -> Coord {
        Coord {
            x: (self.x - vec.x) as i64,
            y: (self.y - vec.y) as i64,
            z: (self.z - vec.z) as i64,
        }
    }
}

} // verus!
