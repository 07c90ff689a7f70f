//! The unit sphere and its ray intersection, carried out exactly: the
//! ray is pulled into the sphere's local frame with the adjugate of the
//! sphere's transformation, which scales the local quadratic by the
//! squared determinant without moving its roots.

use vstd::prelude::*;

use crate::num::{fits, lemma_mul_fits, skip_index};
use crate::ray::Ray;
use crate::square3::Matrix3x3;
use crate::square4::{dot4, Matrix4x4, DET4_RANGE};
use crate::transformations::TransformationMatrix;

verus! {

/// Transforms and ray components this large keep the determinant-scaled
/// quadratic inside an `i64`.
pub const HIT_RANGE: i64 = 64;

/// The coefficients `a`, `b`, `c` of a quadratic `a t^2 + b t + c`
/// whose non-negative discriminant marks a hit.
#[derive(Debug, Clone, Copy, PartialEq, Eq, Structural)]
pub struct Quadratic {
    pub a: i64,
    pub b: i64,
    pub c: i64,
}

impl Quadratic {
    /// The discriminant `b^2 - 4ac`: hits exist exactly where it is
    /// non-negative.
    pub fn discriminant(&self) -> (d: i64)
        requires
            fits(self.b * self.b),
            fits(self.a * self.c),
            fits(4 * (self.a * self.c)),
            fits(self.b * self.b - 4 * (self.a * self.c)),
        ensures
            d == self.b * self.b - 4 * (self.a * self.c),
    {
        self.b * self.b - 4 * (self.a * self.c)
    }

    /// The value of the quadratic at `t`.
    pub fn eval_at(&self, t: i64) -> (v: i64)
        requires
            fits(t * t),
            fits(self.a * (t * t)),
            fits(self.b * t),
            fits(self.a * (t * t) + self.b * t),
            fits(self.a * (t * t) + self.b * t + self.c),
        ensures
            v == self.a * (t * t) + self.b * t + self.c,
    {
        self.a * (t * t) + self.b * t + self.c
    }
}

/// A unit sphere at the local origin, placed in the world by its own
/// transformation.
#[derive(Debug, Clone, Copy, PartialEq)]
pub struct Sphere {
    pub transformation: TransformationMatrix,
}

impl Default for Sphere {
    /// A unit sphere left at the origin: the identity placement.
    fn default() -> (s: Self)
        ensures
            forall|r: int, c: int|
                0 <= r < 4 && 0 <= c < 4 ==> #[trigger] s.transformation.matrix.entry(r, c)
                    == if r == c {
                    1int
                } else {
                    0int
                },
    {
        Sphere { transformation: TransformationMatrix::identity() }
    }
}

/// The direction of a ray pulled into local space by the adjugate of
/// the sphere's matrix: component `r` of the linear part applied to the
/// direction.
pub open spec fn local_dir(m: Matrix4x4, ray: Ray, r: int) -> int {
    m.adjugate_entry(r, 0) * ray.dir.x + m.adjugate_entry(r, 1) * ray.dir.y + m.adjugate_entry(
        r,
        2,
    ) * ray.dir.z
}

/// The origin of a ray pulled into local space by the adjugate of the
/// sphere's matrix: component `r` of the affine action on the origin.
pub open spec fn local_orig(m: Matrix4x4, ray: Ray, r: int) -> int {
    m.adjugate_entry(r, 0) * ray.origin.x + m.adjugate_entry(r, 1) * ray.origin.y
        + m.adjugate_entry(r, 2) * ray.origin.z + m.adjugate_entry(r, 3)
}

/// The quadratic coefficient of `t^2`: the local direction dotted with
/// itself.
pub open spec fn hit_a(m: Matrix4x4, ray: Ray) -> int {
    local_dir(m, ray, 0) * local_dir(m, ray, 0) + local_dir(m, ray, 1) * local_dir(m, ray, 1)
        + local_dir(m, ray, 2) * local_dir(m, ray, 2)
}

/// The quadratic coefficient of `t`: twice the local direction dotted
/// with the local origin.
pub open spec fn hit_b(m: Matrix4x4, ray: Ray) -> int {
    2 * (local_dir(m, ray, 0) * local_orig(m, ray, 0) + local_dir(m, ray, 1) * local_orig(
        m,
        ray,
        1,
    ) + local_dir(m, ray, 2) * local_orig(m, ray, 2))
}

/// The constant coefficient: the local origin dotted with itself, less
/// the squared determinant that stands for the unit radius.
pub open spec fn hit_c(m: Matrix4x4, ray: Ray) -> int {
    local_orig(m, ray, 0) * local_orig(m, ray, 0) + local_orig(m, ray, 1) * local_orig(m, ray, 1)
        + local_orig(m, ray, 2) * local_orig(m, ray, 2) - m.spec_det() * m.spec_det()
}

/// Every component of a bounded ray and every entry of a bounded matrix
/// is small enough for the whole pipeline.
pub open spec fn hit_inputs_ok(m: Matrix4x4, ray: Ray) -> bool {
    &&& m.in_range(HIT_RANGE as int)
    &&& -HIT_RANGE <= ray.origin.x <= HIT_RANGE
    &&& -HIT_RANGE <= ray.origin.y <= HIT_RANGE
    &&& -HIT_RANGE <= ray.origin.z <= HIT_RANGE
    &&& -HIT_RANGE <= ray.dir.x <= HIT_RANGE
    &&& -HIT_RANGE <= ray.dir.y <= HIT_RANGE
    &&& -HIT_RANGE <= ray.dir.z <= HIT_RANGE
}

/// A submatrix of a matrix bounded by the hit range has a bounded
/// determinant: at most six products of three entries.
proof fn lemma_minor4_hit_range(m: Matrix4x4, sub: Matrix3x3)
    requires
        m.in_range(HIT_RANGE as int),
        exists|r: int, c: int| 0 <= r < 4 && 0 <= c < 4 && sub == m.spec_remove(r, c),
    ensures
        -1_572_864 <= sub.spec_det() <= 1_572_864,
{
    let (r, c): (int, int) = choose|r: int, c: int|
        0 <= r < 4 && 0 <= c < 4 && sub == m.spec_remove(r, c);
    assert forall|i: int, j: int|
        0 <= i < 3 && 0 <= j < 3 implies -64 <= #[trigger] sub.entry(i, j) <= 64 by {
        assert(sub.entry(i, j) == m.entry(skip_index(r, i), skip_index(c, j)));
    }
    let s00 = sub.spec_remove(0, 0);
    let s01 = sub.spec_remove(0, 1);
    let s02 = sub.spec_remove(0, 2);
    assert forall|i: int, j: int|
        0 <= i < 2 && 0 <= j < 2 implies -64 <= #[trigger] s00.entry(i, j) <= 64 by {
        assert(s00.entry(i, j) == sub.entry(skip_index(0, i), skip_index(0, j)));
    }
    assert forall|i: int, j: int|
        0 <= i < 2 && 0 <= j < 2 implies -64 <= #[trigger] s01.entry(i, j) <= 64 by {
        assert(s01.entry(i, j) == sub.entry(skip_index(0, i), skip_index(1, j)));
    }
    assert forall|i: int, j: int|
        0 <= i < 2 && 0 <= j < 2 implies -64 <= #[trigger] s02.entry(i, j) <= 64 by {
        assert(s02.entry(i, j) == sub.entry(skip_index(0, i), skip_index(2, j)));
    }
    lemma_mul_fits(s00.entry(0, 0), s00.entry(1, 1), 64, 64);
    lemma_mul_fits(s00.entry(0, 1), s00.entry(1, 0), 64, 64);
    lemma_mul_fits(s01.entry(0, 0), s01.entry(1, 1), 64, 64);
    lemma_mul_fits(s01.entry(0, 1), s01.entry(1, 0), 64, 64);
    lemma_mul_fits(s02.entry(0, 0), s02.entry(1, 1), 64, 64);
    lemma_mul_fits(s02.entry(0, 1), s02.entry(1, 0), 64, 64);
    lemma_mul_fits(sub.entry(0, 0), s00.spec_det(), 64, 8_192);
    lemma_mul_fits(sub.entry(0, 1), s01.spec_det(), 64, 8_192);
    lemma_mul_fits(sub.entry(0, 2), s02.spec_det(), 64, 8_192);
}

/// Every adjugate entry of a matrix bounded by the hit range is a
/// cofactor and so bounded like a 3x3 determinant, and the determinant
/// itself is bounded by four such products more.
proof fn lemma_adjugate_hit_range(m: Matrix4x4)
    requires
        m.in_range(HIT_RANGE as int),
    ensures
        forall|i: int, j: int|
            0 <= i < 4 && 0 <= j < 4 ==> -1_572_864 <= #[trigger] m.adjugate_entry(i, j)
                <= 1_572_864,
        -402_653_184 <= m.spec_det() <= 402_653_184,
{
    assert forall|i: int, j: int|
        0 <= i < 4 && 0 <= j < 4 implies -1_572_864 <= #[trigger] m.adjugate_entry(i, j)
        <= 1_572_864 by {
        lemma_minor4_hit_range(m, m.spec_remove(j, i));
    }
    lemma_minor4_hit_range(m, m.spec_remove(0, 0));
    lemma_minor4_hit_range(m, m.spec_remove(0, 1));
    lemma_minor4_hit_range(m, m.spec_remove(0, 2));
    lemma_minor4_hit_range(m, m.spec_remove(0, 3));
    lemma_mul_fits(m.entry(0, 0), m.spec_minor(0, 0), 64, 1_572_864);
    lemma_mul_fits(m.entry(0, 1), m.spec_minor(0, 1), 64, 1_572_864);
    lemma_mul_fits(m.entry(0, 2), m.spec_minor(0, 2), 64, 1_572_864);
    lemma_mul_fits(m.entry(0, 3), m.spec_minor(0, 3), 64, 1_572_864);
}

impl Sphere {
    /// Builds a sphere with the given placement.
    pub fn new(transformation: TransformationMatrix) -> (s: Self)
        ensures
            s.transformation == transformation,
    {
        Sphere { transformation }
    }

    /// The determinant-scaled local quadratic whose roots are the hit
    /// times of `ray` on this sphere. Returns `None` exactly when the
    /// sphere's transformation has determinant zero, so no local frame
    /// exists; the quadratic's roots are unchanged by the scaling, and
    /// a negative discriminant means the ray misses.
    pub fn hit_quadratic(&self, ray: &Ray) -> (r: Option<Quadratic>)
        requires
            hit_inputs_ok(self.transformation.matrix, *ray),
        ensures
            r is None <==> self.transformation.matrix.spec_det() == 0,
            match r {
                Some(q) => {
                    &&& q.a == hit_a(self.transformation.matrix, *ray)
                    &&& q.b == hit_b(self.transformation.matrix, *ray)
                    &&& q.c == hit_c(self.transformation.matrix, *ray)
                },
                None => self.transformation.matrix.spec_det() == 0,
            },
    {
        let m = &self.transformation.matrix;
        proof {
            assert forall|r: int, c: int|
                0 <= r < 4 && 0 <= c < 4 implies -(DET4_RANGE as int) <= #[trigger] m.entry(r, c)
                <= DET4_RANGE as int by {
            }
            lemma_adjugate_hit_range(*m);
        }
        let inv = m.inverse();
        match inv {
            None => None,
            Some((adj, d)) => {
                let ghost mm = self.transformation.matrix;
                proof {
                    assert(adj.entry(0, 0) == mm.adjugate_entry(0, 0));
                    assert(adj.entry(0, 1) == mm.adjugate_entry(0, 1));
                    assert(adj.entry(0, 2) == mm.adjugate_entry(0, 2));
                    assert(adj.entry(0, 3) == mm.adjugate_entry(0, 3));
                    assert(adj.entry(1, 0) == mm.adjugate_entry(1, 0));
                    assert(adj.entry(1, 1) == mm.adjugate_entry(1, 1));
                    assert(adj.entry(1, 2) == mm.adjugate_entry(1, 2));
                    assert(adj.entry(1, 3) == mm.adjugate_entry(1, 3));
                    assert(adj.entry(2, 0) == mm.adjugate_entry(2, 0));
                    assert(adj.entry(2, 1) == mm.adjugate_entry(2, 1));
                    assert(adj.entry(2, 2) == mm.adjugate_entry(2, 2));
                    assert(adj.entry(2, 3) == mm.adjugate_entry(2, 3));
                    assert(adj.entry(3, 0) == mm.adjugate_entry(3, 0));
                    assert(adj.entry(3, 1) == mm.adjugate_entry(3, 1));
                    assert(adj.entry(3, 2) == mm.adjugate_entry(3, 2));
                    assert(adj.entry(3, 3) == mm.adjugate_entry(3, 3));
                }
                let ldx = dot4(adj.data[0][0], adj.data[0][1], adj.data[0][2], 0, ray.dir.x, ray.dir.y, ray.dir.z, 0);
                let ldy = dot4(adj.data[1][0], adj.data[1][1], adj.data[1][2], 0, ray.dir.x, ray.dir.y, ray.dir.z, 0);
                let ldz = dot4(adj.data[2][0], adj.data[2][1], adj.data[2][2], 0, ray.dir.x, ray.dir.y, ray.dir.z, 0);
                let lox = dot4(adj.data[0][0], adj.data[0][1], adj.data[0][2], adj.data[0][3], ray.origin.x, ray.origin.y, ray.origin.z, 1);
                let loy = dot4(adj.data[1][0], adj.data[1][1], adj.data[1][2], adj.data[1][3], ray.origin.x, ray.origin.y, ray.origin.z, 1);
                let loz = dot4(adj.data[2][0], adj.data[2][1], adj.data[2][2], adj.data[2][3], ray.origin.x, ray.origin.y, ray.origin.z, 1);
                proof {
                    lemma_mul_fits(adj.entry(0, 0), ray.dir.x as int, 1_572_864, 64);
                    lemma_mul_fits(adj.entry(0, 1), ray.dir.y as int, 1_572_864, 64);
                    lemma_mul_fits(adj.entry(0, 2), ray.dir.z as int, 1_572_864, 64);
                    lemma_mul_fits(adj.entry(1, 0), ray.dir.x as int, 1_572_864, 64);
                    lemma_mul_fits(adj.entry(1, 1), ray.dir.y as int, 1_572_864, 64);
                    lemma_mul_fits(adj.entry(1, 2), ray.dir.z as int, 1_572_864, 64);
                    lemma_mul_fits(adj.entry(2, 0), ray.dir.x as int, 1_572_864, 64);
                    lemma_mul_fits(adj.entry(2, 1), ray.dir.y as int, 1_572_864, 64);
                    lemma_mul_fits(adj.entry(2, 2), ray.dir.z as int, 1_572_864, 64);
                    lemma_mul_fits(adj.entry(0, 0), ray.origin.x as int, 1_572_864, 64);
                    lemma_mul_fits(adj.entry(0, 1), ray.origin.y as int, 1_572_864, 64);
                    lemma_mul_fits(adj.entry(0, 2), ray.origin.z as int, 1_572_864, 64);
                    lemma_mul_fits(adj.entry(1, 0), ray.origin.x as int, 1_572_864, 64);
                    lemma_mul_fits(adj.entry(1, 1), ray.origin.y as int, 1_572_864, 64);
                    lemma_mul_fits(adj.entry(1, 2), ray.origin.z as int, 1_572_864, 64);
                    lemma_mul_fits(adj.entry(2, 0), ray.origin.x as int, 1_572_864, 64);
                    lemma_mul_fits(adj.entry(2, 1), ray.origin.y as int, 1_572_864, 64);
                    lemma_mul_fits(adj.entry(2, 2), ray.origin.z as int, 1_572_864, 64);
                    lemma_mul_fits(ldx as int, ldx as int, 410_000_000, 410_000_000);
                    lemma_mul_fits(ldy as int, ldy as int, 410_000_000, 410_000_000);
                    lemma_mul_fits(ldz as int, ldz as int, 410_000_000, 410_000_000);
                    lemma_mul_fits(ldx as int, lox as int, 410_000_000, 410_000_000);
                    lemma_mul_fits(ldy as int, loy as int, 410_000_000, 410_000_000);
                    lemma_mul_fits(ldz as int, loz as int, 410_000_000, 410_000_000);
                    lemma_mul_fits(lox as int, lox as int, 410_000_000, 410_000_000);
                    lemma_mul_fits(loy as int, loy as int, 410_000_000, 410_000_000);
                    lemma_mul_fits(loz as int, loz as int, 410_000_000, 410_000_000);
                    lemma_mul_fits(d as int, d as int, 402_653_184, 402_653_184);
                }
                let a = ldx * ldx + ldy * ldy + ldz * ldz;
                let b = 2 * (ldx * lox + ldy * loy + ldz * loz);
                let c = lox * lox + loy * loy + loz * loz - d * d;
                Some(Quadratic { a, b, c })
            },
        }
    }
}

/// Scaling a ray's local origin and direction by any factor `k` scales
/// each coefficient of the unit-sphere quadratic, with the radius term
/// read as `k` as well, by exactly `k` squared. The roots of a
/// quadratic are untouched by a common factor, so intersecting through
/// the adjugate, which is the true inverse scaled by the determinant,
/// finds the same hit times as solving in the true local frame.
pub proof fn lemma_quadratic_scaling(
    ox: int,
    oy: int,
    oz: int,
    dx: int,
    dy: int,
    dz: int,
    k: int,
)
    ensures
        (k * dx) * (k * dx) + (k * dy) * (k * dy) + (k * dz) * (k * dz) == k * k * (dx * dx + dy
            * dy + dz * dz),
        2 * ((k * dx) * (k * ox) + (k * dy) * (k * oy) + (k * dz) * (k * oz)) == k * k * (2 * (dx
            * ox + dy * oy + dz * oz)),
        (k * ox) * (k * ox) + (k * oy) * (k * oy) + (k * oz) * (k * oz) - k * k == k * k * (ox * ox
            + oy * oy + oz * oz - 1),
{
    assert((k * dx) * (k * dx) + (k * dy) * (k * dy) + (k * dz) * (k * dz) == k * k * (dx * dx + dy
        * dy + dz * dz)) by (nonlinear_arith);
    assert((k * dx) * (k * ox) == k * k * (dx * ox)) by (nonlinear_arith);
    assert((k * dy) * (k * oy) == k * k * (dy * oy)) by (nonlinear_arith);
    assert((k * dz) * (k * oz) == k * k * (dz * oz)) by (nonlinear_arith);
    assert(k * k * (2 * (dx * ox + dy * oy + dz * oz)) == 2 * (k * k * (dx * ox) + k * k * (dy
        * oy) + k * k * (dz * oz))) by (nonlinear_arith);
    assert((k * ox) * (k * ox) == k * k * (ox * ox)) by (nonlinear_arith);
    assert((k * oy) * (k * oy) == k * k * (oy * oy)) by (nonlinear_arith);
    assert((k * oz) * (k * oz) == k * k * (oz * oz)) by (nonlinear_arith);
    assert(k * k * (ox * ox + oy * oy + oz * oz - 1) == k * k * (ox * ox) + k * k * (oy * oy) + k
        * k * (oz * oz) - k * k) by (nonlinear_arith);
}

} // verus!
