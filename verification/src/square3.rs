//! The 3x3 square matrix: determinant by cofactor expansion over 2x2
//! submatrices, and the linear action on vectors and points.

use vstd::prelude::*;

use crate::coord::Coord;
use crate::num::{lemma_mul_fits, skip_index};
use crate::square2::{Matrix2x2, DET2_RANGE};
use crate::vector::Vector;

verus! {

/// Entries this large keep a 3x3 determinant inside an `i64`.
pub const DET3_RANGE: i64 = 1_000_000;

/// Entries and components this large keep a matrix-vector product
/// inside an `i64`.
pub const MUL3_RANGE: i64 = 1_000_000_000;

/// A 3x3 matrix of exact integers.
#[derive(Debug, Clone, Copy, PartialEq, Eq)]
pub struct Matrix3x3 {
    pub data: [[i64; 3]; 3],
}

impl Matrix3x3 {
    /// The entry in row `r`, column `c`, as a mathematical integer.
    pub open spec fn entry(self, r: int, c: int) -> int {
        self.data[r][c] as int
    }

    /// Every entry lies within `-b ..= b`.
    pub open spec fn in_range(self, b: int) -> bool {
        forall|r: int, c: int| 0 <= r < 3 && 0 <= c < 3 ==> -b <= #[trigger] self.entry(r, c) <= b
    }

    /// The 2x2 submatrix left after removing row `r` and column `c`.
    pub open spec fn spec_remove(self, r: int, c: int) -> Matrix2x2 {
        Matrix2x2 {
            data: [
                [
                    self.data[skip_index(r, 0)][skip_index(c, 0)],
                    self.data[skip_index(r, 0)][skip_index(c, 1)],
                ],
                [
                    self.data[skip_index(r, 1)][skip_index(c, 0)],
                    self.data[skip_index(r, 1)][skip_index(c, 1)],
                ],
            ],
        }
    }

    /// The minor of the entry at `(r, c)`: the determinant of the
    /// submatrix that omits its row and column.
    pub open spec fn spec_minor(self, r: int, c: int) -> int {
        self.spec_remove(r, c).spec_det()
    }

    /// The cofactor of the entry at `(r, c)`: its minor, negated on the
    /// odd positions of the checkerboard.
    pub open spec fn spec_cofactor(self, r: int, c: int) -> int {
        if (r + c) % 2 == 1 {
            -self.spec_minor(r, c)
        } else {
            self.spec_minor(r, c)
        }
    }

    /// The determinant, by cofactor expansion along the first row.
    pub open spec fn spec_det(self) -> int {
        self.entry(0, 0) * self.spec_minor(0, 0) - self.entry(0, 1) * self.spec_minor(0, 1)
            + self.entry(0, 2) * self.spec_minor(0, 2)
    }

    /// The adjugate entry at `(r, c)`: the cofactor of the transposed
    /// position.
    pub open spec fn adjugate_entry(self, r: int, c: int) -> int {
        self.spec_cofactor(c, r)
    }

    /// The matrix dimensions.
    pub fn size() -> (s: (usize, usize))
        ensures
            s == (3usize, 3usize),
    {
        (3, 3)
    }

    /// The 2x2 submatrix left after removing the given row and column.
    pub fn remove_indexes(&self, row: usize, col: usize) -> (m: Matrix2x2)
        requires
            row < 3,
            col < 3,
        ensures
            m == self.spec_remove(row as int, col as int),
    {
        let r0: usize = if row == 0 { 1 } else { 0 };
        let r1: usize = if row == 2 { 1 } else { 2 };
        let c0: usize = if col == 0 { 1 } else { 0 };
        let c1: usize = if col == 2 { 1 } else { 2 };
        let m = Matrix2x2 {
            data: [
                [self.data[r0][c0], self.data[r0][c1]],
                [self.data[r1][c0], self.data[r1][c1]],
            ],
        };
        proof {
            assert(m.data@ =~= self.spec_remove(row as int, col as int).data@);
            assert(m.data@[0] =~= self.spec_remove(row as int, col as int).data@[0]);
            assert(m.data@[1] =~= self.spec_remove(row as int, col as int).data@[1]);
            assert(m.data =~= self.spec_remove(row as int, col as int).data);
        }
        m
    }

    /// The determinant, by cofactor expansion along the first row.
    pub fn det(&self) -> (d: i64)
        requires
            self.in_range(DET3_RANGE as int),
        ensures
            d == self.spec_det(),
    {
        let m0 = self.remove_indexes(0, 0);
        let m1 = self.remove_indexes(0, 1);
        let m2 = self.remove_indexes(0, 2);
        proof {
            lemma_minor3_range(*self, m0);
            lemma_minor3_range(*self, m1);
            lemma_minor3_range(*self, m2);
        }
        let d0 = m0.det();
        let d1 = m1.det();
        let d2 = m2.det();
        proof {
            lemma_mul_fits(self.entry(0, 0), d0 as int, 1_000_000, 2_000_000_000_000);
            lemma_mul_fits(self.entry(0, 1), d1 as int, 1_000_000, 2_000_000_000_000);
            lemma_mul_fits(self.entry(0, 2), d2 as int, 1_000_000, 2_000_000_000_000);
        }
        self.data[0][0] * d0 - self.data[0][1] * d1 + self.data[0][2] * d2
    }

    /// The minor of the entry at the given position.
    pub fn minor(&self, row: usize, col: usize) -> (d: i64)
        requires
            row < 3,
            col < 3,
            self.in_range(DET3_RANGE as int),
        ensures
            d == self.spec_minor(row as int, col as int),
    {
        let m = self.remove_indexes(row, col);
        proof {
            lemma_minor3_range(*self, m);
        }
        m.det()
    }

    /// The cofactor of the entry at the given position.
    pub fn cofactor(&self, row: usize, col: usize) -> (d: i64)
        requires
            row < 3,
            col < 3,
            self.in_range(DET3_RANGE as int),
        ensures
            d == self.spec_cofactor(row as int, col as int),
    {
        let m = self.minor(row, col);
        proof {
            lemma_minor3_range(*self, self.spec_remove(row as int, col as int));
        }
        if (row + col) % 2 == 1 {
            -m
        } else {
            m
        }
    }

    /// The exact inverse, as the adjugate together with the determinant
    /// it still has to be divided by: the pair `(adj, d)` stands for the
    /// matrix `adj / d`. Returns `None` exactly when the determinant is
    /// zero and no inverse exists.
    pub fn inverse(&self) -> (r: Option<(Matrix3x3, i64)>)
        requires
            self.in_range(DET3_RANGE as int),
        ensures
            r is None <==> self.spec_det() == 0,
            match r {
                Some((adj, d)) => {
                    &&& d == self.spec_det()
                    &&& forall|i: int, j: int|
                        0 <= i < 3 && 0 <= j < 3 ==> #[trigger] adj.entry(i, j)
                            == self.adjugate_entry(i, j)
                },
                None => self.spec_det() == 0,
            },
    {
        let d = self.det();
        if d == 0 {
            return None;
        }
        let adj = Matrix3x3 {
            data: [
                [self.cofactor(0, 0), self.cofactor(1, 0), self.cofactor(2, 0)],
                [self.cofactor(0, 1), self.cofactor(1, 1), self.cofactor(2, 1)],
                [self.cofactor(0, 2), self.cofactor(1, 2), self.cofactor(2, 2)],
            ],
        };
        Some((adj, d))
    }
}

/// A submatrix of a bounded matrix is bounded the same way, and so is
/// its 2x2 determinant.
proof fn lemma_minor3_range(m: Matrix3x3, sub: Matrix2x2)
    requires
        m.in_range(DET3_RANGE as int),
        exists|r: int, c: int| 0 <= r < 3 && 0 <= c < 3 && sub == m.spec_remove(r, c),
    ensures
        sub.in_range(DET3_RANGE as int),
        sub.in_range(DET2_RANGE as int),
        -2_000_000_000_000 <= sub.spec_det() <= 2_000_000_000_000,
{
    let (r, c): (int, int) = choose|r: int, c: int|
        0 <= r < 3 && 0 <= c < 3 && sub == m.spec_remove(r, c);
    assert forall|i: int, j: int|
        0 <= i < 2 && 0 <= j < 2 implies -(DET3_RANGE as int) <= #[trigger] sub.entry(i, j)
        <= DET3_RANGE as int by {
        assert(sub.entry(i, j) == m.entry(skip_index(r, i), skip_index(c, j)));
    }
    lemma_mul_fits(sub.entry(0, 0), sub.entry(1, 1), 1_000_000, 1_000_000);
    lemma_mul_fits(sub.entry(0, 1), sub.entry(1, 0), 1_000_000, 1_000_000);
}

/// A row of a matrix dotted with the cofactors of a different row
/// vanishes; dotted with its own cofactors it gives the first-row
/// cofactor expansion of the determinant. Each fact is a plain
/// polynomial identity over nine scalars.
proof fn lemma_adjugate_poly3_zero_a(
    e00: int,
    e01: int,
    e02: int,
    e10: int,
    e11: int,
    e12: int,
    e20: int,
    e21: int,
    e22: int,
)
    by (nonlinear_arith)
    ensures
        e10 * (e11 * e22 - e12 * e21) + e11 * (-(e10 * e22 - e12 * e20)) + e12 * (e10 * e21 - e11
            * e20) == 0,
        e00 * (-(e01 * e22 - e02 * e21)) + e01 * (e00 * e22 - e02 * e20) + e02 * (-(e00 * e21 - e01
            * e20)) == 0,
{
}

/// The diagonal case of the adjugate identity: a row dotted with its own
/// cofactors is the determinant, whichever row it is. Each side is
/// expanded into the same six monomials.
proof fn lemma_adjugate_poly3_diag(
    e00: int,
    e01: int,
    e02: int,
    e10: int,
    e11: int,
    e12: int,
    e20: int,
    e21: int,
    e22: int,
)
    ensures
        e10 * (-(e01 * e22 - e02 * e21)) + e11 * (e00 * e22 - e02 * e20) + e12 * (-(e00 * e21 - e01
            * e20)) == e00 * (e11 * e22 - e12 * e21) - e01 * (e10 * e22 - e12 * e20) + e02 * (e10
            * e21 - e11 * e20),
{
    assert(e10 * (-(e01 * e22 - e02 * e21)) == -(e01 * (e10 * e22)) + e02 * (e10 * e21))
        by (nonlinear_arith);
    assert(e11 * (e00 * e22 - e02 * e20) == e00 * (e11 * e22) - e02 * (e11 * e20))
        by (nonlinear_arith);
    assert(e12 * (-(e00 * e21 - e01 * e20)) == -(e00 * (e12 * e21)) + e01 * (e12 * e20))
        by (nonlinear_arith);
    assert(e00 * (e11 * e22 - e12 * e21) == e00 * (e11 * e22) - e00 * (e12 * e21))
        by (nonlinear_arith);
    assert(e01 * (e10 * e22 - e12 * e20) == e01 * (e10 * e22) - e01 * (e12 * e20))
        by (nonlinear_arith);
    assert(e02 * (e10 * e21 - e11 * e20) == e02 * (e10 * e21) - e02 * (e11 * e20))
        by (nonlinear_arith);
}

/// Two more vanishing rows against foreign cofactors.
proof fn lemma_adjugate_poly3_zero_b(
    e00: int,
    e01: int,
    e02: int,
    e10: int,
    e11: int,
    e12: int,
    e20: int,
    e21: int,
    e22: int,
)
    by (nonlinear_arith)
    ensures
        e20 * (e11 * e22 - e12 * e21) + e21 * (-(e10 * e22 - e12 * e20)) + e22 * (e10 * e21 - e11
            * e20) == 0,
        e20 * (-(e01 * e22 - e02 * e21)) + e21 * (e00 * e22 - e02 * e20) + e22 * (-(e00 * e21 - e01
            * e20)) == 0,
{
}

/// The last two vanishing rows against foreign cofactors.
proof fn lemma_adjugate_poly3_zero_c(
    e00: int,
    e01: int,
    e02: int,
    e10: int,
    e11: int,
    e12: int,
    e20: int,
    e21: int,
    e22: int,
)
    by (nonlinear_arith)
    ensures
        e00 * (e01 * e12 - e02 * e11) + e01 * (-(e00 * e12 - e02 * e10)) + e02 * (e00 * e11 - e01
            * e10) == 0,
        e10 * (e01 * e12 - e02 * e11) + e11 * (-(e00 * e12 - e02 * e10)) + e12 * (e00 * e11 - e01
            * e10) == 0,
{
}

/// The first row dotted with its own cofactors is the determinant: the
/// expansion that defines it, up to a sign shuffle.
proof fn lemma_adjugate_poly3_diag0(
    e00: int,
    e01: int,
    e02: int,
    e10: int,
    e11: int,
    e12: int,
    e20: int,
    e21: int,
    e22: int,
)
    by (nonlinear_arith)
    ensures
        e00 * (e11 * e22 - e12 * e21) + e01 * (-(e10 * e22 - e12 * e20)) + e02 * (e10 * e21 - e11
            * e20) == e00 * (e11 * e22 - e12 * e21) - e01 * (e10 * e22 - e12 * e20) + e02 * (e10
            * e21 - e11 * e20),
{
}

/// The last row dotted with its own cofactors is the determinant. Each
/// side is expanded into the same six monomials.
proof fn lemma_adjugate_poly3_diag2(
    e00: int,
    e01: int,
    e02: int,
    e10: int,
    e11: int,
    e12: int,
    e20: int,
    e21: int,
    e22: int,
)
    ensures
        e20 * (e01 * e12 - e02 * e11) + e21 * (-(e00 * e12 - e02 * e10)) + e22 * (e00 * e11 - e01
            * e10) == e00 * (e11 * e22 - e12 * e21) - e01 * (e10 * e22 - e12 * e20) + e02 * (e10
            * e21 - e11 * e20),
{
    assert(e20 * (e01 * e12 - e02 * e11) == e01 * (e12 * e20) - e02 * (e11 * e20))
        by (nonlinear_arith);
    assert(e21 * (-(e00 * e12 - e02 * e10)) == -(e00 * (e12 * e21)) + e02 * (e10 * e21))
        by (nonlinear_arith);
    assert(e22 * (e00 * e11 - e01 * e10) == e00 * (e11 * e22) - e01 * (e10 * e22))
        by (nonlinear_arith);
    assert(e00 * (e11 * e22 - e12 * e21) == e00 * (e11 * e22) - e00 * (e12 * e21))
        by (nonlinear_arith);
    assert(e01 * (e10 * e22 - e12 * e20) == e01 * (e10 * e22) - e01 * (e12 * e20))
        by (nonlinear_arith);
    assert(e02 * (e10 * e21 - e11 * e20) == e02 * (e10 * e21) - e02 * (e11 * e20))
        by (nonlinear_arith);
}

/// Multiplying a matrix by its adjugate yields the determinant down the
/// diagonal and zero elsewhere: the exact statement that the adjugate
/// divided by the determinant is the inverse.
pub proof fn lemma_mul_adjugate_identity3(m: Matrix3x3, i: int, j: int)
    requires
        0 <= i < 3,
        0 <= j < 3,
    ensures
        m.entry(i, 0) * m.adjugate_entry(0, j) + m.entry(i, 1) * m.adjugate_entry(1, j) + m.entry(
            i,
            2,
        ) * m.adjugate_entry(2, j) == if i == j {
            m.spec_det()
        } else {
            0
        },
{
    let e00 = m.entry(0, 0);
    let e01 = m.entry(0, 1);
    let e02 = m.entry(0, 2);
    let e10 = m.entry(1, 0);
    let e11 = m.entry(1, 1);
    let e12 = m.entry(1, 2);
    let e20 = m.entry(2, 0);
    let e21 = m.entry(2, 1);
    let e22 = m.entry(2, 2);
    assert(m.adjugate_entry(0, 0) == e11 * e22 - e12 * e21);
    assert(m.adjugate_entry(1, 0) == -(e10 * e22 - e12 * e20));
    assert(m.adjugate_entry(2, 0) == e10 * e21 - e11 * e20);
    assert(m.adjugate_entry(0, 1) == -(e01 * e22 - e02 * e21));
    assert(m.adjugate_entry(1, 1) == e00 * e22 - e02 * e20);
    assert(m.adjugate_entry(2, 1) == -(e00 * e21 - e01 * e20));
    assert(m.adjugate_entry(0, 2) == e01 * e12 - e02 * e11);
    assert(m.adjugate_entry(1, 2) == -(e00 * e12 - e02 * e10));
    assert(m.adjugate_entry(2, 2) == e00 * e11 - e01 * e10);
    assert(m.spec_det() == e00 * (e11 * e22 - e12 * e21) - e01 * (e10 * e22 - e12 * e20) + e02 * (
    e10 * e21 - e11 * e20));
    lemma_adjugate_poly3_zero_a(e00, e01, e02, e10, e11, e12, e20, e21, e22);
    lemma_adjugate_poly3_zero_b(e00, e01, e02, e10, e11, e12, e20, e21, e22);
    lemma_adjugate_poly3_zero_c(e00, e01, e02, e10, e11, e12, e20, e21, e22);
    lemma_adjugate_poly3_diag0(e00, e01, e02, e10, e11, e12, e20, e21, e22);
    lemma_adjugate_poly3_diag(e00, e01, e02, e10, e11, e12, e20, e21, e22);
    lemma_adjugate_poly3_diag2(e00, e01, e02, e10, e11, e12, e20, e21, e22);

}

impl std::ops::Mul<Vector> for Matrix3x3 {
    type Output = Vector;

    /// The linear action of the matrix on a direction.
    fn mul(self, rhs: Vector) -> (v: Vector) {
        proof {
            lemma_mul_fits(self.entry(0, 0), rhs.x as int, 1_000_000_000, 1_000_000_000);
            lemma_mul_fits(self.entry(0, 1), rhs.y as int, 1_000_000_000, 1_000_000_000);
            lemma_mul_fits(self.entry(0, 2), rhs.z as int, 1_000_000_000, 1_000_000_000);
            lemma_mul_fits(self.entry(1, 0), rhs.x as int, 1_000_000_000, 1_000_000_000);
            lemma_mul_fits(self.entry(1, 1), rhs.y as int, 1_000_000_000, 1_000_000_000);
            lemma_mul_fits(self.entry(1, 2), rhs.z as int, 1_000_000_000, 1_000_000_000);
            lemma_mul_fits(self.entry(2, 0), rhs.x as int, 1_000_000_000, 1_000_000_000);
            lemma_mul_fits(self.entry(2, 1), rhs.y as int, 1_000_000_000, 1_000_000_000);
            lemma_mul_fits(self.entry(2, 2), rhs.z as int, 1_000_000_000, 1_000_000_000);
        }
        Vector::new(
            self.data[0][0] * rhs.x + self.data[0][1] * rhs.y + self.data[0][2] * rhs.z,
            self.data[1][0] * rhs.x + self.data[1][1] * rhs.y + self.data[1][2] * rhs.z,
            self.data[2][0] * rhs.x + self.data[2][1] * rhs.y + self.data[2][2] * rhs.z,
        )
    }
}

impl vstd::std_specs::ops::MulSpecImpl<Vector> for Matrix3x3 {
    open spec fn obeys_mul_spec() -> bool {
        true
    }

    open spec fn mul_req(self, rhs: Vector) -> bool {
        &&& self.in_range(MUL3_RANGE as int)
        &&& -MUL3_RANGE <= rhs.x <= MUL3_RANGE
        &&& -MUL3_RANGE <= rhs.y <= MUL3_RANGE
        &&& -MUL3_RANGE <= rhs.z <= MUL3_RANGE
    }

    open spec fn mul_spec(self, rhs: Vector) -> Vector {
        Vector {
            x: (self.entry(0, 0) * rhs.x + self.entry(0, 1) * rhs.y + self.entry(0, 2)
                * rhs.z) as i64,
            y: (self.entry(1, 0) * rhs.x + self.entry(1, 1) * rhs.y + self.entry(1, 2)
                * rhs.z) as i64,
            z: (self.entry(2, 0) * rhs.x + self.entry(2, 1) * rhs.y + self.entry(2, 2)
                * rhs.z) as i64,
        }
    }
}

impl std::ops::Mul<Coord> for Matrix3x3 {
    type Output = Coord;

    /// The linear action of the matrix on a point; a 3x3 matrix carries
    /// no translation column.
    fn mul(self, rhs: Coord) -> (c: Coord) {
        proof {
            lemma_mul_fits(self.entry(0, 0), rhs.x as int, 1_000_000_000, 1_000_000_000);
            lemma_mul_fits(self.entry(0, 1), rhs.y as int, 1_000_000_000, 1_000_000_000);
            lemma_mul_fits(self.entry(0, 2), rhs.z as int, 1_000_000_000, 1_000_000_000);
            lemma_mul_fits(self.entry(1, 0), rhs.x as int, 1_000_000_000, 1_000_000_000);
            lemma_mul_fits(self.entry(1, 1), rhs.y as int, 1_000_000_000, 1_000_000_000);
            lemma_mul_fits(self.entry(1, 2), rhs.z as int, 1_000_000_000, 1_000_000_000);
            lemma_mul_fits(self.entry(2, 0), rhs.x as int, 1_000_000_000, 1_000_000_000);
            lemma_mul_fits(self.entry(2, 1), rhs.y as int, 1_000_000_000, 1_000_000_000);
            lemma_mul_fits(self.entry(2, 2), rhs.z as int, 1_000_000_000, 1_000_000_000);
        }
        Coord::new(
            self.data[0][0] * rhs.x + self.data[0][1] * rhs.y + self.data[0][2] * rhs.z,
            self.data[1][0] * rhs.x + self.data[1][1] * rhs.y + self.data[1][2] * rhs.z,
            self.data[2][0] * rhs.x + self.data[2][1] * rhs.y + self.data[2][2] * rhs.z,
        )
    }
}

impl vstd::std_specs::ops::MulSpecImpl<Coord> for Matrix3x3 {
    open spec fn obeys_mul_spec() -> bool {
        true
    }

    open spec fn mul_req(self, rhs: Coord) -> bool {
        &&& self.in_range(MUL3_RANGE as int)
        &&& -MUL3_RANGE <= rhs.x <= MUL3_RANGE
        &&& -MUL3_RANGE <= rhs.y <= MUL3_RANGE
        &&& -MUL3_RANGE <= rhs.z <= MUL3_RANGE
    }

    open spec fn mul_spec(self, rhs: Coord) -> Coord {
        Coord {
            x: (self.entry(0, 0) * rhs.x + self.entry(0, 1) * rhs.y + self.entry(0, 2)
                * rhs.z) as i64,
            y: (self.entry(1, 0) * rhs.x + self.entry(1, 1) * rhs.y + self.entry(1, 2)
                * rhs.z) as i64,
            z: (self.entry(2, 0) * rhs.x + self.entry(2, 1) * rhs.y + self.entry(2, 2)
                * rhs.z) as i64,
        }
    }
}

} // verus!
