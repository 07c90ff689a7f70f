//! The closed set of scene shapes, dispatched by exhaustive match.

use vstd::prelude::*;

use crate::ray::Ray;
use crate::sphere::{hit_a, hit_b, hit_c, hit_inputs_ok, Quadratic, Sphere};
use crate::square4::Matrix4x4;

verus! {

/// Every kind of shape the kernel knows; adding one is a deliberate,
/// local change.
#[derive(Debug, Clone, Copy, PartialEq)]
pub enum Shapes {
    Sphere(Sphere),
}

impl Shapes {
    /// The transformation matrix that places the shape in the world.
    pub open spec fn spec_transform(self) -> Matrix4x4 {
        match self {
            Shapes::Sphere(s) => s.transformation.matrix,
        }
    }

    /// The determinant-scaled local quadratic whose roots are the times
    /// at which the ray strikes the shape; `None` exactly when the
    /// shape's transformation is degenerate.
    pub fn hit_quadratic(&self, ray: &Ray) -> (r: Option<Quadratic>)
        requires
            hit_inputs_ok(self.spec_transform(), *ray),
        ensures
            r is None <==> self.spec_transform().spec_det() == 0,
            match r {
                Some(q) => {
                    &&& q.a == hit_a(self.spec_transform(), *ray)
                    &&& q.b == hit_b(self.spec_transform(), *ray)
                    &&& q.c == hit_c(self.spec_transform(), *ray)
                },
                None => self.spec_transform().spec_det() == 0,
            },
    {
        match self {
            Shapes::Sphere(s) => s.hit_quadratic(ray),
        }
    }
}

} // verus!
