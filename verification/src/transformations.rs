//! Builders for affine transformation matrices: translation and scaling
//! composed by left-multiplication, so the first call is applied first.

use vstd::prelude::*;

use crate::coord::Coord;
use crate::num::lemma_mul_fits;
use crate::square4::{spec_mul4, spec_mul4_entry, Matrix4x4, MUL4_RANGE};
use crate::vector::Vector;

verus! {

/// An accumulated affine transformation.
#[derive(Debug, Clone, Copy, PartialEq)]
pub struct TransformationMatrix {
    pub matrix: Matrix4x4,
}

/// The 4x4 matrix that moves every point by `by` and leaves directions
/// alone: the identity with `by` down the last column.
pub open spec fn spec_translation(by: Coord) -> Matrix4x4 {
    Matrix4x4 {
        data: [[1, 0, 0, by.x], [0, 1, 0, by.y], [0, 0, 1, by.z], [0, 0, 0, 1]],
    }
}

/// The 4x4 matrix that scales each axis by the matching component of
/// `by`: the diagonal of `by` with an affine one in the corner.
pub open spec fn spec_scaling(by: Coord) -> Matrix4x4 {
    Matrix4x4 {
        data: [[by.x, 0, 0, 0], [0, by.y, 0, 0], [0, 0, by.z, 0], [0, 0, 0, 1]],
    }
}

/// An axis of rotation.
pub enum Axis {
    X,
    Y,
    Z,
}

impl TransformationMatrix {
    /// The transformation that leaves everything in place.
    pub fn identity() -> (t: Self)
        ensures
            forall|r: int, c: int|
                0 <= r < 4 && 0 <= c < 4 ==> #[trigger] t.matrix.entry(r, c) == if r == c {
                    1int
                } else {
                    0int
                },
    {
        TransformationMatrix { matrix: Matrix4x4::identity() }
    }

    /// The translation matrix for the offset `by`.
    pub fn translation(by: Coord) -> (m: Matrix4x4)
        ensures
            m == spec_translation(by),
    {
        let m = Matrix4x4 {
            data: [[1, 0, 0, by.x], [0, 1, 0, by.y], [0, 0, 1, by.z], [0, 0, 0, 1]],
        };
        m
    }

    /// The scaling matrix for the factors `by`.
    pub fn scaling(by: Coord) -> (m: Matrix4x4)
        ensures
            m == spec_scaling(by),
    {
        let m = Matrix4x4 {
            data: [[by.x, 0, 0, 0], [0, by.y, 0, 0], [0, 0, by.z, 0], [0, 0, 0, 1]],
        };
        m
    }

    /// Left-multiplies a translation onto the accumulated matrix, so
    /// the translation is applied after everything accumulated so far.
    pub fn translate(&mut self, by: Coord)
        requires
            old(self).matrix.in_range(MUL4_RANGE as int),
            -MUL4_RANGE <= by.x <= MUL4_RANGE,
            -MUL4_RANGE <= by.y <= MUL4_RANGE,
            -MUL4_RANGE <= by.z <= MUL4_RANGE,
        ensures
            final(self).matrix == spec_mul4(spec_translation(by), old(self).matrix),
    {
        let t = Self::translation(by);
        proof {
            lemma_affine_matrix_in_range(t, by);
        }
        self.matrix = t * self.matrix;
    }

    /// Left-multiplies a scaling onto the accumulated matrix, so the
    /// scaling is applied after everything accumulated so far.
    pub fn scale(&mut self, by: Coord)
        requires
            old(self).matrix.in_range(MUL4_RANGE as int),
            -MUL4_RANGE <= by.x <= MUL4_RANGE,
            -MUL4_RANGE <= by.y <= MUL4_RANGE,
            -MUL4_RANGE <= by.z <= MUL4_RANGE,
        ensures
            final(self).matrix == spec_mul4(spec_scaling(by), old(self).matrix),
    {
        let t = Self::scaling(by);
        proof {
            lemma_affine_matrix_in_range(t, by);
        }
        self.matrix = t * self.matrix;
    }

    /// Applies the accumulated matrix to a point, translation included.
    pub fn apply(&self, object: Coord) -> (c: Coord)
        requires
            self.matrix.in_range(MUL4_RANGE as int),
            -MUL4_RANGE <= object.x <= MUL4_RANGE,
            -MUL4_RANGE <= object.y <= MUL4_RANGE,
            -MUL4_RANGE <= object.z <= MUL4_RANGE,
        ensures
            c.x == self.matrix.entry(0, 0) * object.x + self.matrix.entry(0, 1) * object.y
                + self.matrix.entry(0, 2) * object.z + self.matrix.entry(0, 3),
            c.y == self.matrix.entry(1, 0) * object.x + self.matrix.entry(1, 1) * object.y
                + self.matrix.entry(1, 2) * object.z + self.matrix.entry(1, 3),
            c.z == self.matrix.entry(2, 0) * object.x + self.matrix.entry(2, 1) * object.y
                + self.matrix.entry(2, 2) * object.z + self.matrix.entry(2, 3),
    {
        proof {
            lemma_mul_fits(self.matrix.entry(0, 0), object.x as int, 1_000_000_000, 1_000_000_000);
            lemma_mul_fits(self.matrix.entry(0, 1), object.y as int, 1_000_000_000, 1_000_000_000);
            lemma_mul_fits(self.matrix.entry(0, 2), object.z as int, 1_000_000_000, 1_000_000_000);
            lemma_mul_fits(self.matrix.entry(1, 0), object.x as int, 1_000_000_000, 1_000_000_000);
            lemma_mul_fits(self.matrix.entry(1, 1), object.y as int, 1_000_000_000, 1_000_000_000);
            lemma_mul_fits(self.matrix.entry(1, 2), object.z as int, 1_000_000_000, 1_000_000_000);
            lemma_mul_fits(self.matrix.entry(2, 0), object.x as int, 1_000_000_000, 1_000_000_000);
            lemma_mul_fits(self.matrix.entry(2, 1), object.y as int, 1_000_000_000, 1_000_000_000);
            lemma_mul_fits(self.matrix.entry(2, 2), object.z as int, 1_000_000_000, 1_000_000_000);
        }
        self.matrix * object
    }

    /// Applies the accumulated matrix to a free direction: only the
    /// linear part acts.
    pub fn apply_vector(&self, object: Vector) -> (v: Vector)
        requires
            self.matrix.in_range(MUL4_RANGE as int),
            -MUL4_RANGE <= object.x <= MUL4_RANGE,
            -MUL4_RANGE <= object.y <= MUL4_RANGE,
            -MUL4_RANGE <= object.z <= MUL4_RANGE,
        ensures
            v.x == self.matrix.entry(0, 0) * object.x + self.matrix.entry(0, 1) * object.y
                + self.matrix.entry(0, 2) * object.z,
            v.y == self.matrix.entry(1, 0) * object.x + self.matrix.entry(1, 1) * object.y
                + self.matrix.entry(1, 2) * object.z,
            v.z == self.matrix.entry(2, 0) * object.x + self.matrix.entry(2, 1) * object.y
                + self.matrix.entry(2, 2) * object.z,
    {
        proof {
            lemma_mul_fits(self.matrix.entry(0, 0), object.x as int, 1_000_000_000, 1_000_000_000);
            lemma_mul_fits(self.matrix.entry(0, 1), object.y as int, 1_000_000_000, 1_000_000_000);
            lemma_mul_fits(self.matrix.entry(0, 2), object.z as int, 1_000_000_000, 1_000_000_000);
            lemma_mul_fits(self.matrix.entry(1, 0), object.x as int, 1_000_000_000, 1_000_000_000);
            lemma_mul_fits(self.matrix.entry(1, 1), object.y as int, 1_000_000_000, 1_000_000_000);
            lemma_mul_fits(self.matrix.entry(1, 2), object.z as int, 1_000_000_000, 1_000_000_000);
            lemma_mul_fits(self.matrix.entry(2, 0), object.x as int, 1_000_000_000, 1_000_000_000);
            lemma_mul_fits(self.matrix.entry(2, 1), object.y as int, 1_000_000_000, 1_000_000_000);
            lemma_mul_fits(self.matrix.entry(2, 2), object.z as int, 1_000_000_000, 1_000_000_000);
        }
        self.matrix * object
    }
}

impl Default for TransformationMatrix {
    /// A fresh builder starts from the identity.
    fn default() -> (t: Self)
        ensures
            forall|r: int, c: int|
                0 <= r < 4 && 0 <= c < 4 ==> #[trigger] t.matrix.entry(r, c) == if r == c {
                    1int
                } else {
                    0int
                },
    {
        TransformationMatrix { matrix: Matrix4x4::identity() }
    }
}

/// A translation or scaling matrix built from bounded components stays
/// within the multiplication range.
proof fn lemma_affine_matrix_in_range(m: Matrix4x4, by: Coord)
    requires
        -MUL4_RANGE <= by.x <= MUL4_RANGE,
        -MUL4_RANGE <= by.y <= MUL4_RANGE,
        -MUL4_RANGE <= by.z <= MUL4_RANGE,
        m == spec_translation(by) || m == spec_scaling(by),
    ensures
        m.in_range(MUL4_RANGE as int),
{
    assert forall|r: int, c: int|
        0 <= r < 4 && 0 <= c < 4 implies -(MUL4_RANGE as int) <= #[trigger] m.entry(r, c) <= (
    MUL4_RANGE as int) by {
        assert(m.data[r][c] == spec_translation(by).data[r][c] || m.data[r][c] == spec_scaling(
            by,
        ).data[r][c]);
    }
}

/// Translating and then scaling multiplies the offset by the scale
/// factors; scaling and then translating leaves the offset alone. The
/// two compositions applied to the same point differ, per axis, by
/// `(factor - 1) * offset`: they agree only where that product is zero,
/// so the builder's composition order matters.
pub proof fn lemma_scale_translate_order(p: Coord, t: Coord, s: Coord)
    requires
        -1_000_000 <= p.x <= 1_000_000,
        -1_000_000 <= p.y <= 1_000_000,
        -1_000_000 <= p.z <= 1_000_000,
        -1_000_000 <= t.x <= 1_000_000,
        -1_000_000 <= t.y <= 1_000_000,
        -1_000_000 <= t.z <= 1_000_000,
        -1_000_000 <= s.x <= 1_000_000,
        -1_000_000 <= s.y <= 1_000_000,
        -1_000_000 <= s.z <= 1_000_000,
    ensures
        spec_mul4_entry(spec_scaling(s), spec_translation(t), 0, 0) * p.x + spec_mul4_entry(
            spec_scaling(s),
            spec_translation(t),
            0,
            1,
        ) * p.y + spec_mul4_entry(spec_scaling(s), spec_translation(t), 0, 2) * p.z
            + spec_mul4_entry(spec_scaling(s), spec_translation(t), 0, 3) == s.x * (p.x + t.x),
        spec_mul4_entry(spec_translation(t), spec_scaling(s), 0, 0) * p.x + spec_mul4_entry(
            spec_translation(t),
            spec_scaling(s),
            0,
            1,
        ) * p.y + spec_mul4_entry(spec_translation(t), spec_scaling(s), 0, 2) * p.z
            + spec_mul4_entry(spec_translation(t), spec_scaling(s), 0, 3) == s.x * p.x + t.x,
        s.x * (p.x + t.x) - (s.x * p.x + t.x) == (s.x - 1) * t.x,
{
    let st = spec_mul4_entry(spec_scaling(s), spec_translation(t), 0, 0);
    assert(st == s.x * 1 + 0 * 0 + 0 * 0 + 0 * 0);
    assert(spec_mul4_entry(spec_scaling(s), spec_translation(t), 0, 1) == s.x * 0 + 0 * 1 + 0 * 0
        + 0 * 0);
    assert(spec_mul4_entry(spec_scaling(s), spec_translation(t), 0, 2) == s.x * 0 + 0 * 0 + 0 * 1
        + 0 * 0);
    assert(spec_mul4_entry(spec_scaling(s), spec_translation(t), 0, 3) == s.x * t.x + 0 * t.y + 0
        * t.z + 0 * 1);
    assert(spec_mul4_entry(spec_translation(t), spec_scaling(s), 0, 0) == 1 * s.x + 0 * 0 + 0 * 0
        + t.x * 0);
    assert(spec_mul4_entry(spec_translation(t), spec_scaling(s), 0, 1) == 1 * 0 + 0 * s.y + 0 * 0
        + t.x * 0);
    assert(spec_mul4_entry(spec_translation(t), spec_scaling(s), 0, 2) == 1 * 0 + 0 * 0 + 0 * s.z
        + t.x * 0);
    assert(spec_mul4_entry(spec_translation(t), spec_scaling(s), 0, 3) == 1 * 0 + 0 * 0 + 0 * 0
        + t.x * 1);
    assert(st * p.x == s.x * p.x) by (nonlinear_arith)
        requires
            st == s.x,
    ;
    assert(s.x * (p.x + t.x) == s.x * p.x + s.x * t.x) by (nonlinear_arith);
    assert((s.x - 1) * t.x == s.x * t.x - t.x) by (nonlinear_arith);
}

} // verus!
