//! A three-component vector over exact integer coordinates, used for
//! directions, positions and color triples alike.

use vstd::prelude::*;

use crate::num::fits;

verus! {

/// A triple of exact integer coordinates.
#[derive(Debug, Clone, Copy, PartialEq, Eq, Structural)]
pub struct Vec3 {
    pub x: i64,
    pub y: i64,
    pub z: i64,
}

impl Vec3 {
    /// Builds a vector from its three components.
    pub fn new(x: i64, y: i64, z: i64) -> (v: Self)
        ensures
            v == (Vec3 { x, y, z }),
    {
        Vec3 { x, y, z }
    }

    /// The first component.
    pub fn x(self) -> (r: i64)
        ensures
            r == self.x,
    {
        self.x
    }

    /// The second component.
    pub fn y(self) -> (r: i64)
        ensures
            r == self.y,
    {
        self.y
    }

    /// The third component.
    pub fn z(self) -> (r: i64)
        ensures
            r == self.z,
    {
        self.z
    }

    /// The dot product of `self` and `rhs`.
    pub open spec fn spec_dot(self, rhs: Vec3) -> int {
        self.x * rhs.x + self.y * rhs.y + self.z * rhs.z
    }

    /// The sum of the component-wise products of the two vectors.
    pub fn dot(self, rhs: Vec3) -> (r: i64)
        requires
            fits(self.x * rhs.x),
            fits(self.y * rhs.y),
            fits(self.z * rhs.z),
            fits(self.x * rhs.x + self.y * rhs.y),
            fits(self.spec_dot(rhs)),
        ensures
            r == self.spec_dot(rhs),
    {
        self.x * rhs.x + self.y * rhs.y + self.z * rhs.z
    }

    /// The cross product of `self` and `rhs`, by the usual determinant
    /// formula.
    pub fn cross(self, rhs: Vec3) -> (r: Vec3)
        requires
            fits(self.y * rhs.z),
            fits(self.z * rhs.y),
            fits(self.z * rhs.x),
            fits(self.x * rhs.z),
            fits(self.x * rhs.y),
            fits(self.y * rhs.x),
            fits(self.y * rhs.z - self.z * rhs.y),
            fits(self.z * rhs.x - self.x * rhs.z),
            fits(self.x * rhs.y - self.y * rhs.x),
        ensures
            r.x == self.y * rhs.z - self.z * rhs.y,
            r.y == self.z * rhs.x - self.x * rhs.z,
            r.z == self.x * rhs.y - self.y * rhs.x,
    {
        Vec3::new(
            self.y * rhs.z - self.z * rhs.y,
            self.z * rhs.x - self.x * rhs.z,
            self.x * rhs.y - self.y * rhs.x,
        )
    }
}

impl From<[i64; 3]> for Vec3 {
    /// Reads the three components from an array.
    fn from(e: [i64; 3]) -> (v: Self) {
        Vec3 { x: e[0], y: e[1], z: e[2] }
    }
}

impl vstd::std_specs::convert::FromSpecImpl<[i64; 3]> for Vec3 {
    open spec fn obeys_from_spec() -> bool {
        true
    }

    open spec fn from_spec(e: [i64; 3]) -> Self {
        Vec3 { x: e@[0], y: e@[1], z: e@[2] }
    }
}

impl std::ops::Add<Vec3> for Vec3 {
    type Output = Vec3;

    /// Component-wise addition.
    fn add(self, rhs: Vec3) -> (r: Vec3) {
        Vec3::new(self.x + rhs.x, self.y + rhs.y, self.z + rhs.z)
    }
}

impl vstd::std_specs::ops::AddSpecImpl<Vec3> for Vec3 {
    open spec fn obeys_add_spec() -> bool {
        true
    }

    open spec fn add_req(self, rhs: Vec3) -> bool {
        fits(self.x + rhs.x) && fits(self.y + rhs.y) && fits(self.z + rhs.z)
    }

    open spec fn add_spec(self, rhs: Vec3) -> Vec3 {
        Vec3 {
            x: (self.x + rhs.x) as i64,
            y: (self.y + rhs.y) as i64,
            z: (self.z + rhs.z) as i64,
        }
    }
}

impl std::ops::Sub<Vec3> for Vec3 {
    type Output = Vec3;

    /// Component-wise subtraction.
    fn sub(self, rhs: Vec3) -> (r: Vec3) {
        Vec3::new(self.x - rhs.x, self.y - rhs.y, self.z - rhs.z)
    }
}

impl vstd::std_specs::ops::SubSpecImpl<Vec3> for Vec3 {
    open spec fn obeys_sub_spec() -> bool {
        true
    }

    open spec fn sub_req(self, rhs: Vec3) -> bool {
        fits(self.x - rhs.x) && fits(self.y - rhs.y) && fits(self.z - rhs.z)
    }

    open spec fn sub_spec(self, rhs: Vec3) -> Vec3 {
        Vec3 {
            x: (self.x - rhs.x) as i64,
            y: (self.y - rhs.y) as i64,
            z: (self.z - rhs.z) as i64,
        }
    }
}

impl std::ops::Mul<Vec3> for Vec3 {
    type Output = Vec3;

    /// Component-wise multiplication.
    fn mul(self, rhs: Vec3) -> (r: Vec3) {
        Vec3::new(self.x * rhs.x, self.y * rhs.y, self.z * rhs.z)
    }
}

impl vstd::std_specs::ops::MulSpecImpl<Vec3> for Vec3 {
    open spec fn obeys_mul_spec() -> bool {
        true
    }

    open spec fn mul_req(self, rhs: Vec3) -> bool {
        fits(self.x * rhs.x) && fits(self.y * rhs.y) && fits(self.z * rhs.z)
    }

    open spec fn mul_spec(self, rhs: Vec3) -> Vec3 {
        Vec3 {
            x: (self.x * rhs.x) as i64,
            y: (self.y * rhs.y) as i64,
            z: (self.z * rhs.z) as i64,
        }
    }
}

} // verus!
