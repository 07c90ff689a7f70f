//! The 4x4 square matrix: the affine workhorse of the kernel, with
//! determinant, cofactors, exact inverse, transpose, and the distinct
//! actions on directions and points.

use vstd::prelude::*;

use crate::coord::Coord;
use crate::num::{lemma_mul_fits, skip_index};
use crate::square3::{Matrix3x3, DET3_RANGE};
use crate::vector::Vector;

verus! {

/// Entries this large keep a 4x4 determinant inside an `i64`.
pub const DET4_RANGE: i64 = 20_000;

/// Entries and components this large keep products of a row and a
/// column inside an `i64`.
pub const MUL4_RANGE: i64 = 1_000_000_000;

/// A 4x4 matrix of exact integers.
#[derive(Debug, Clone, Copy, PartialEq, Eq)]
pub struct Matrix4x4 {
    pub data: [[i64; 4]; 4],
}

impl Matrix4x4 {
    /// The entry in row `r`, column `c`, as a mathematical integer.
    pub open spec fn entry(self, r: int, c: int) -> int {
        self.data[r][c] as int
    }

    /// Every entry lies within `-b ..= b`.
    pub open spec fn in_range(self, b: int) -> bool {
        forall|r: int, c: int| 0 <= r < 4 && 0 <= c < 4 ==> -b <= #[trigger] self.entry(r, c) <= b
    }

    /// The 3x3 submatrix left after removing row `r` and column `c`.
    pub open spec fn spec_remove(self, r: int, c: int) -> Matrix3x3 {
        Matrix3x3 {
            data: [
                [
                    self.data[skip_index(r, 0)][skip_index(c, 0)],
                    self.data[skip_index(r, 0)][skip_index(c, 1)],
                    self.data[skip_index(r, 0)][skip_index(c, 2)],
                ],
                [
                    self.data[skip_index(r, 1)][skip_index(c, 0)],
                    self.data[skip_index(r, 1)][skip_index(c, 1)],
                    self.data[skip_index(r, 1)][skip_index(c, 2)],
                ],
                [
                    self.data[skip_index(r, 2)][skip_index(c, 0)],
                    self.data[skip_index(r, 2)][skip_index(c, 1)],
                    self.data[skip_index(r, 2)][skip_index(c, 2)],
                ],
            ],
        }
    }

    /// The minor of the entry at `(r, c)`: the determinant of the
    /// submatrix that omits its row and column.
    pub open spec fn spec_minor(self, r: int, c: int) -> int {
        self.spec_remove(r, c).spec_det()
    }

    /// The cofactor of the entry at `(r, c)`: its minor, negated on the
    /// odd positions of the checkerboard.
    pub open spec fn spec_cofactor(self, r: int, c: int) -> int {
        if (r + c) % 2 == 1 {
            -self.spec_minor(r, c)
        } else {
            self.spec_minor(r, c)
        }
    }

    /// The determinant, by cofactor expansion along the first row.
    pub open spec fn spec_det(self) -> int {
        self.entry(0, 0) * self.spec_minor(0, 0) - self.entry(0, 1) * self.spec_minor(0, 1)
            + self.entry(0, 2) * self.spec_minor(0, 2) - self.entry(0, 3) * self.spec_minor(0, 3)
    }

    /// The adjugate entry at `(r, c)`: the cofactor of the transposed
    /// position.
    pub open spec fn adjugate_entry(self, r: int, c: int) -> int {
        self.spec_cofactor(c, r)
    }

    /// The matrix dimensions.
    pub fn size() -> (s: (usize, usize))
        ensures
            s == (4usize, 4usize),
    {
        (4, 4)
    }

    /// The zero matrix.
    pub fn zero() -> (m: Self)
        ensures
            forall|r: int, c: int| 0 <= r < 4 && 0 <= c < 4 ==> #[trigger] m.entry(r, c) == 0,
    {
        Matrix4x4 { data: [[0, 0, 0, 0], [0, 0, 0, 0], [0, 0, 0, 0], [0, 0, 0, 0]] }
    }

    /// The identity matrix: ones down the diagonal.
    pub fn identity() -> (m: Self)
        ensures
            forall|r: int, c: int|
                0 <= r < 4 && 0 <= c < 4 ==> #[trigger] m.entry(r, c) == if r == c {
                    1int
                } else {
                    0int
                },
    {
        Matrix4x4 { data: [[1, 0, 0, 0], [0, 1, 0, 0], [0, 0, 1, 0], [0, 0, 0, 1]] }
    }

    /// The matrix reflected over its main diagonal.
    pub fn transpose(&self) -> (m: Self)
        ensures
            forall|r: int, c: int|
                0 <= r < 4 && 0 <= c < 4 ==> #[trigger] m.entry(r, c) == self.entry(c, r),
    {
        Matrix4x4 {
            data: [
                [self.data[0][0], self.data[1][0], self.data[2][0], self.data[3][0]],
                [self.data[0][1], self.data[1][1], self.data[2][1], self.data[3][1]],
                [self.data[0][2], self.data[1][2], self.data[2][2], self.data[3][2]],
                [self.data[0][3], self.data[1][3], self.data[2][3], self.data[3][3]],
            ],
        }
    }

    /// Overwrites one entry in place.
    pub fn mutate_to(&mut self, pos: (usize, usize), to: i64)
        requires
            pos.0 < 4,
            pos.1 < 4,
        ensures
            final(self).entry(pos.0 as int, pos.1 as int) == to,
            forall|r: int, c: int|
                0 <= r < 4 && 0 <= c < 4 && !(r == pos.0 && c == pos.1)
                    ==> #[trigger] final(self).entry(r, c) == old(self).entry(r, c),
    {
        let mut row = self.data[pos.0];
        row[pos.1] = to;
        self.data[pos.0] = row;
    }

    /// One row of the matrix.
    pub fn get_row(&self, id: usize) -> (r: Vec<i64>)
        requires
            id < 4,
        ensures
            r@ == seq![
                (self.entry(id as int, 0) as i64),
                (self.entry(id as int, 1) as i64),
                (self.entry(id as int, 2) as i64),
                (self.entry(id as int, 3) as i64),
            ],
    {
        let r = vec![self.data[id][0], self.data[id][1], self.data[id][2], self.data[id][3]];
        proof {
            assert(r@ =~= seq![
                (self.entry(id as int, 0) as i64),
                (self.entry(id as int, 1) as i64),
                (self.entry(id as int, 2) as i64),
                (self.entry(id as int, 3) as i64),
            ]);
        }
        r
    }

    /// One column of the matrix.
    pub fn get_col(&self, id: usize) -> (r: Vec<i64>)
        requires
            id < 4,
        ensures
            r@ == seq![
                (self.entry(0, id as int) as i64),
                (self.entry(1, id as int) as i64),
                (self.entry(2, id as int) as i64),
                (self.entry(3, id as int) as i64),
            ],
    {
        let r = vec![self.data[0][id], self.data[1][id], self.data[2][id], self.data[3][id]];
        proof {
            assert(r@ =~= seq![
                (self.entry(0, id as int) as i64),
                (self.entry(1, id as int) as i64),
                (self.entry(2, id as int) as i64),
                (self.entry(3, id as int) as i64),
            ]);
        }
        r
    }

    /// The 3x3 submatrix left after removing the given row and column.
    pub fn remove_indexes(&self, row: usize, col: usize) -> (m: Matrix3x3)
        requires
            row < 4,
            col < 4,
        ensures
            m == self.spec_remove(row as int, col as int),
    {
        let r0: usize = if row == 0 { 1 } else { 0 };
        let r1: usize = if row <= 1 { 2 } else { 1 };
        let r2: usize = if row <= 2 { 3 } else { 2 };
        let c0: usize = if col == 0 { 1 } else { 0 };
        let c1: usize = if col <= 1 { 2 } else { 1 };
        let c2: usize = if col <= 2 { 3 } else { 2 };
        let m = Matrix3x3 {
            data: [
                [self.data[r0][c0], self.data[r0][c1], self.data[r0][c2]],
                [self.data[r1][c0], self.data[r1][c1], self.data[r1][c2]],
                [self.data[r2][c0], self.data[r2][c1], self.data[r2][c2]],
            ],
        };
        proof {
            let sm = self.spec_remove(row as int, col as int);
            assert(m.data@[0] =~= sm.data@[0]);
            assert(m.data@[1] =~= sm.data@[1]);
            assert(m.data@[2] =~= sm.data@[2]);
            assert(m.data =~= sm.data);
        }
        m
    }

    /// The determinant, by cofactor expansion along the first row.
    pub fn det(&self) -> (d: i64)
        requires
            self.in_range(DET4_RANGE as int),
        ensures
            d == self.spec_det(),
    {
        let m0 = self.remove_indexes(0, 0);
        let m1 = self.remove_indexes(0, 1);
        let m2 = self.remove_indexes(0, 2);
        let m3 = self.remove_indexes(0, 3);
        proof {
            lemma_minor4_range(*self, m0);
            lemma_minor4_range(*self, m1);
            lemma_minor4_range(*self, m2);
            lemma_minor4_range(*self, m3);
        }
        let d0 = m0.det();
        let d1 = m1.det();
        let d2 = m2.det();
        let d3 = m3.det();
        proof {
            lemma_mul_fits(self.entry(0, 0), d0 as int, 20_000, 48_000_000_000_000);
            lemma_mul_fits(self.entry(0, 1), d1 as int, 20_000, 48_000_000_000_000);
            lemma_mul_fits(self.entry(0, 2), d2 as int, 20_000, 48_000_000_000_000);
            lemma_mul_fits(self.entry(0, 3), d3 as int, 20_000, 48_000_000_000_000);
        }
        self.data[0][0] * d0 - self.data[0][1] * d1 + self.data[0][2] * d2 - self.data[0][3] * d3
    }

    /// The minor of the entry at the given position.
    pub fn minor(&self, row: usize, col: usize) -> (d: i64)
        requires
            row < 4,
            col < 4,
            self.in_range(DET4_RANGE as int),
        ensures
            d == self.spec_minor(row as int, col as int),
    {
        let m = self.remove_indexes(row, col);
        proof {
            lemma_minor4_range(*self, m);
        }
        m.det()
    }

    /// The cofactor of the entry at the given position.
    pub fn cofactor(&self, row: usize, col: usize) -> (d: i64)
        requires
            row < 4,
            col < 4,
            self.in_range(DET4_RANGE as int),
        ensures
            d == self.spec_cofactor(row as int, col as int),
    {
        let sub = self.remove_indexes(row, col);
        proof {
            lemma_minor4_range(*self, sub);
        }
        let m = sub.det();
        if (row + col) % 2 == 1 {
            -m
        } else {
            m
        }
    }

    /// The exact inverse, as the adjugate together with the determinant
    /// it still has to be divided by: the pair `(adj, d)` stands for the
    /// matrix `adj / d`. Returns `None` exactly when the determinant is
    /// zero and no inverse exists.
    pub fn inverse(&self) -> (r: Option<(Matrix4x4, i64)>)
        requires
            self.in_range(DET4_RANGE as int),
        ensures
            r is None <==> self.spec_det() == 0,
            match r {
                Some((adj, d)) => {
                    &&& d == self.spec_det()
                    &&& forall|i: int, j: int|
                        0 <= i < 4 && 0 <= j < 4 ==> #[trigger] adj.entry(i, j)
                            == self.adjugate_entry(i, j)
                },
                None => self.spec_det() == 0,
            },
    {
        let d = self.det();
        if d == 0 {
            return None;
        }
        let adj = Matrix4x4 {
            data: [
                [
                    self.cofactor(0, 0),
                    self.cofactor(1, 0),
                    self.cofactor(2, 0),
                    self.cofactor(3, 0),
                ],
                [
                    self.cofactor(0, 1),
                    self.cofactor(1, 1),
                    self.cofactor(2, 1),
                    self.cofactor(3, 1),
                ],
                [
                    self.cofactor(0, 2),
                    self.cofactor(1, 2),
                    self.cofactor(2, 2),
                    self.cofactor(3, 2),
                ],
                [
                    self.cofactor(0, 3),
                    self.cofactor(1, 3),
                    self.cofactor(2, 3),
                    self.cofactor(3, 3),
                ],
            ],
        };
        Some((adj, d))
    }
}

impl From<[[i64; 4]; 4]> for Matrix4x4 {
    /// Reads the sixteen entries row by row.
    fn from(data: [[i64; 4]; 4]) -> (m: Self) {
        Matrix4x4 { data }
    }
}

impl vstd::std_specs::convert::FromSpecImpl<[[i64; 4]; 4]> for Matrix4x4 {
    open spec fn obeys_from_spec() -> bool {
        true
    }

    open spec fn from_spec(data: [[i64; 4]; 4]) -> Self {
        Matrix4x4 { data }
    }
}

/// A submatrix of a matrix within the determinant range is within the
/// 3x3 determinant range, and its determinant is bounded.
proof fn lemma_minor4_range(m: Matrix4x4, sub: Matrix3x3)
    requires
        m.in_range(DET4_RANGE as int),
        exists|r: int, c: int| 0 <= r < 4 && 0 <= c < 4 && sub == m.spec_remove(r, c),
    ensures
        sub.in_range(DET4_RANGE as int),
        sub.in_range(DET3_RANGE as int),
        -48_000_000_000_000 <= sub.spec_det() <= 48_000_000_000_000,
{
    let (r, c): (int, int) = choose|r: int, c: int|
        0 <= r < 4 && 0 <= c < 4 && sub == m.spec_remove(r, c);
    assert forall|i: int, j: int|
        0 <= i < 3 && 0 <= j < 3 implies -(DET4_RANGE as int) <= #[trigger] sub.entry(i, j)
        <= DET4_RANGE as int by {
        assert(sub.entry(i, j) == m.entry(skip_index(r, i), skip_index(c, j)));
    }
    let s00 = sub.spec_remove(0, 0);
    let s01 = sub.spec_remove(0, 1);
    let s02 = sub.spec_remove(0, 2);
    assert forall|i: int, j: int|
        0 <= i < 2 && 0 <= j < 2 implies -(DET4_RANGE as int) <= #[trigger] s00.entry(i, j)
        <= DET4_RANGE as int by {
        assert(s00.entry(i, j) == sub.entry(skip_index(0, i), skip_index(0, j)));
    }
    assert forall|i: int, j: int|
        0 <= i < 2 && 0 <= j < 2 implies -(DET4_RANGE as int) <= #[trigger] s01.entry(i, j)
        <= DET4_RANGE as int by {
        assert(s01.entry(i, j) == sub.entry(skip_index(0, i), skip_index(1, j)));
    }
    assert forall|i: int, j: int|
        0 <= i < 2 && 0 <= j < 2 implies -(DET4_RANGE as int) <= #[trigger] s02.entry(i, j)
        <= DET4_RANGE as int by {
        assert(s02.entry(i, j) == sub.entry(skip_index(0, i), skip_index(2, j)));
    }
    lemma_mul_fits(s00.entry(0, 0), s00.entry(1, 1), 20_000, 20_000);
    lemma_mul_fits(s00.entry(0, 1), s00.entry(1, 0), 20_000, 20_000);
    lemma_mul_fits(s01.entry(0, 0), s01.entry(1, 1), 20_000, 20_000);
    lemma_mul_fits(s01.entry(0, 1), s01.entry(1, 0), 20_000, 20_000);
    lemma_mul_fits(s02.entry(0, 0), s02.entry(1, 1), 20_000, 20_000);
    lemma_mul_fits(s02.entry(0, 1), s02.entry(1, 0), 20_000, 20_000);
    assert(-800_000_000 <= s00.spec_det() <= 800_000_000);
    assert(-800_000_000 <= s01.spec_det() <= 800_000_000);
    assert(-800_000_000 <= s02.spec_det() <= 800_000_000);
    lemma_mul_fits(sub.entry(0, 0), s00.spec_det(), 20_000, 800_000_000);
    lemma_mul_fits(sub.entry(0, 1), s01.spec_det(), 20_000, 800_000_000);
    lemma_mul_fits(sub.entry(0, 2), s02.spec_det(), 20_000, 800_000_000);
    assert(-16_000_000_000_000 <= sub.entry(0, 0) * s00.spec_det() <= 16_000_000_000_000);
    assert(-16_000_000_000_000 <= sub.entry(0, 1) * s01.spec_det() <= 16_000_000_000_000);
    assert(-16_000_000_000_000 <= sub.entry(0, 2) * s02.spec_det() <= 16_000_000_000_000);
    assert(sub.spec_det() == sub.entry(0, 0) * s00.spec_det() - sub.entry(0, 1) * s01.spec_det()
        + sub.entry(0, 2) * s02.spec_det());
    assert(-48_000_000_000_000 <= sub.spec_det() <= 48_000_000_000_000);
}

/// The sum of four products of a bounded row and a bounded column.
pub(crate) fn dot4(a0: i64, a1: i64, a2: i64, a3: i64, b0: i64, b1: i64, b2: i64, b3: i64) -> (r: i64)
    requires
        -MUL4_RANGE <= a0 <= MUL4_RANGE,
        -MUL4_RANGE <= a1 <= MUL4_RANGE,
        -MUL4_RANGE <= a2 <= MUL4_RANGE,
        -MUL4_RANGE <= a3 <= MUL4_RANGE,
        -MUL4_RANGE <= b0 <= MUL4_RANGE,
        -MUL4_RANGE <= b1 <= MUL4_RANGE,
        -MUL4_RANGE <= b2 <= MUL4_RANGE,
        -MUL4_RANGE <= b3 <= MUL4_RANGE,
    ensures
        r == a0 * b0 + a1 * b1 + a2 * b2 + a3 * b3,
{
    proof {
        lemma_mul_fits(a0 as int, b0 as int, 1_000_000_000, 1_000_000_000);
        lemma_mul_fits(a1 as int, b1 as int, 1_000_000_000, 1_000_000_000);
        lemma_mul_fits(a2 as int, b2 as int, 1_000_000_000, 1_000_000_000);
        lemma_mul_fits(a3 as int, b3 as int, 1_000_000_000, 1_000_000_000);
    }
    a0 * b0 + a1 * b1 + a2 * b2 + a3 * b3
}

impl std::ops::Mul<Matrix4x4> for Matrix4x4 {
    type Output = Matrix4x4;

    /// The standard row-by-column matrix product.
    fn mul(self, rhs: Matrix4x4) -> (m: Matrix4x4) {
        let mut out = Matrix4x4::zero();
        let mut r: usize = 0;
        while r < 4
            invariant
                self.in_range(MUL4_RANGE as int),
                rhs.in_range(MUL4_RANGE as int),
                r <= 4,
                forall|i: int, j: int|
                    0 <= i < r && 0 <= j < 4 ==> #[trigger] out.entry(i, j) == self.entry(i, 0)
                        * rhs.entry(0, j) + self.entry(i, 1) * rhs.entry(1, j) + self.entry(i, 2)
                        * rhs.entry(2, j) + self.entry(i, 3) * rhs.entry(3, j),
            decreases 4 - r,
        {
            let mut c: usize = 0;
            while c < 4
                invariant
                    self.in_range(MUL4_RANGE as int),
                    rhs.in_range(MUL4_RANGE as int),
                    r < 4,
                    c <= 4,
                    forall|i: int, j: int|
                        0 <= i < r && 0 <= j < 4 ==> #[trigger] out.entry(i, j) == self.entry(i, 0)
                            * rhs.entry(0, j) + self.entry(i, 1) * rhs.entry(1, j) + self.entry(
                            i,
                            2,
                        ) * rhs.entry(2, j) + self.entry(i, 3) * rhs.entry(3, j),
                    forall|j: int|
                        0 <= j < c ==> #[trigger] out.entry(r as int, j) == self.entry(r as int, 0)
                            * rhs.entry(0, j) + self.entry(r as int, 1) * rhs.entry(1, j)
                            + self.entry(r as int, 2) * rhs.entry(2, j) + self.entry(r as int, 3)
                            * rhs.entry(3, j),
                decreases 4 - c,
            {
                proof {
                    assert(-(MUL4_RANGE as int) <= self.entry(r as int, 0) <= MUL4_RANGE as int);
                    assert(-(MUL4_RANGE as int) <= self.entry(r as int, 1) <= MUL4_RANGE as int);
                    assert(-(MUL4_RANGE as int) <= self.entry(r as int, 2) <= MUL4_RANGE as int);
                    assert(-(MUL4_RANGE as int) <= self.entry(r as int, 3) <= MUL4_RANGE as int);
                    assert(-(MUL4_RANGE as int) <= rhs.entry(0, c as int) <= MUL4_RANGE as int);
                    assert(-(MUL4_RANGE as int) <= rhs.entry(1, c as int) <= MUL4_RANGE as int);
                    assert(-(MUL4_RANGE as int) <= rhs.entry(2, c as int) <= MUL4_RANGE as int);
                    assert(-(MUL4_RANGE as int) <= rhs.entry(3, c as int) <= MUL4_RANGE as int);
                }
                let v = dot4(
                    self.data[r][0],
                    self.data[r][1],
                    self.data[r][2],
                    self.data[r][3],
                    rhs.data[0][c],
                    rhs.data[1][c],
                    rhs.data[2][c],
                    rhs.data[3][c],
                );
                out.mutate_to((r, c), v);
                c = c + 1;
            }
            r = r + 1;
        }
        proof {
            let sm = spec_mul4(self, rhs);
            assert(out.entry(0, 0) == spec_mul4_entry(self, rhs, 0, 0));
            assert(out.entry(0, 1) == spec_mul4_entry(self, rhs, 0, 1));
            assert(out.entry(0, 2) == spec_mul4_entry(self, rhs, 0, 2));
            assert(out.entry(0, 3) == spec_mul4_entry(self, rhs, 0, 3));
            assert(out.entry(1, 0) == spec_mul4_entry(self, rhs, 1, 0));
            assert(out.entry(1, 1) == spec_mul4_entry(self, rhs, 1, 1));
            assert(out.entry(1, 2) == spec_mul4_entry(self, rhs, 1, 2));
            assert(out.entry(1, 3) == spec_mul4_entry(self, rhs, 1, 3));
            assert(out.entry(2, 0) == spec_mul4_entry(self, rhs, 2, 0));
            assert(out.entry(2, 1) == spec_mul4_entry(self, rhs, 2, 1));
            assert(out.entry(2, 2) == spec_mul4_entry(self, rhs, 2, 2));
            assert(out.entry(2, 3) == spec_mul4_entry(self, rhs, 2, 3));
            assert(out.entry(3, 0) == spec_mul4_entry(self, rhs, 3, 0));
            assert(out.entry(3, 1) == spec_mul4_entry(self, rhs, 3, 1));
            assert(out.entry(3, 2) == spec_mul4_entry(self, rhs, 3, 2));
            assert(out.entry(3, 3) == spec_mul4_entry(self, rhs, 3, 3));
            assert(out.data@[0] =~= sm.data@[0]);
            assert(out.data@[1] =~= sm.data@[1]);
            assert(out.data@[2] =~= sm.data@[2]);
            assert(out.data@[3] =~= sm.data@[3]);
            assert(out.data =~= sm.data);
        }
        out
    }
}

impl vstd::std_specs::ops::MulSpecImpl<Matrix4x4> for Matrix4x4 {
    open spec fn obeys_mul_spec() -> bool {
        true
    }

    open spec fn mul_req(self, rhs: Matrix4x4) -> bool {
        self.in_range(MUL4_RANGE as int) && rhs.in_range(MUL4_RANGE as int)
    }

    open spec fn mul_spec(self, rhs: Matrix4x4) -> Matrix4x4 {
        spec_mul4(self, rhs)
    }
}

/// The row-by-column product of two 4x4 matrices.
pub open spec fn spec_mul4_entry(a: Matrix4x4, b: Matrix4x4, r: int, c: int) -> int {
    a.entry(r, 0) * b.entry(0, c) + a.entry(r, 1) * b.entry(1, c) + a.entry(r, 2) * b.entry(2, c)
        + a.entry(r, 3) * b.entry(3, c)
}

/// The product matrix itself, entry by entry.
pub open spec fn spec_mul4(a: Matrix4x4, b: Matrix4x4) -> Matrix4x4 {
    Matrix4x4 {
        data: [
            [
                (spec_mul4_entry(a, b, 0, 0)) as i64,
                (spec_mul4_entry(a, b, 0, 1)) as i64,
                (spec_mul4_entry(a, b, 0, 2)) as i64,
                (spec_mul4_entry(a, b, 0, 3)) as i64,
            ],
            [
                (spec_mul4_entry(a, b, 1, 0)) as i64,
                (spec_mul4_entry(a, b, 1, 1)) as i64,
                (spec_mul4_entry(a, b, 1, 2)) as i64,
                (spec_mul4_entry(a, b, 1, 3)) as i64,
            ],
            [
                (spec_mul4_entry(a, b, 2, 0)) as i64,
                (spec_mul4_entry(a, b, 2, 1)) as i64,
                (spec_mul4_entry(a, b, 2, 2)) as i64,
                (spec_mul4_entry(a, b, 2, 3)) as i64,
            ],
            [
                (spec_mul4_entry(a, b, 3, 0)) as i64,
                (spec_mul4_entry(a, b, 3, 1)) as i64,
                (spec_mul4_entry(a, b, 3, 2)) as i64,
                (spec_mul4_entry(a, b, 3, 3)) as i64,
            ],
        ],
    }
}

impl std::ops::Mul<Vector> for Matrix4x4 {
    type Output = Vector;

    /// The action of the matrix on a free direction: only the linear
    /// 3x3 part applies, the translation column is ignored.
    fn mul(self, rhs: Vector) -> (v: Vector) {
        proof {
            assert(-(MUL4_RANGE as int) <= self.entry(0, 0) <= MUL4_RANGE as int);
            assert(-(MUL4_RANGE as int) <= self.entry(0, 1) <= MUL4_RANGE as int);
            assert(-(MUL4_RANGE as int) <= self.entry(0, 2) <= MUL4_RANGE as int);
            assert(-(MUL4_RANGE as int) <= self.entry(1, 0) <= MUL4_RANGE as int);
            assert(-(MUL4_RANGE as int) <= self.entry(1, 1) <= MUL4_RANGE as int);
            assert(-(MUL4_RANGE as int) <= self.entry(1, 2) <= MUL4_RANGE as int);
            assert(-(MUL4_RANGE as int) <= self.entry(2, 0) <= MUL4_RANGE as int);
            assert(-(MUL4_RANGE as int) <= self.entry(2, 1) <= MUL4_RANGE as int);
            assert(-(MUL4_RANGE as int) <= self.entry(2, 2) <= MUL4_RANGE as int);
        }
        Vector::new(
            dot4(self.data[0][0], self.data[0][1], self.data[0][2], 0, rhs.x, rhs.y, rhs.z, 0),
            dot4(self.data[1][0], self.data[1][1], self.data[1][2], 0, rhs.x, rhs.y, rhs.z, 0),
            dot4(self.data[2][0], self.data[2][1], self.data[2][2], 0, rhs.x, rhs.y, rhs.z, 0),
        )
    }
}

impl vstd::std_specs::ops::MulSpecImpl<Vector> for Matrix4x4 {
    open spec fn obeys_mul_spec() -> bool {
        true
    }

    open spec fn mul_req(self, rhs: Vector) -> bool {
        &&& self.in_range(MUL4_RANGE as int)
        &&& -MUL4_RANGE <= rhs.x <= MUL4_RANGE
        &&& -MUL4_RANGE <= rhs.y <= MUL4_RANGE
        &&& -MUL4_RANGE <= rhs.z <= MUL4_RANGE
    }

    open spec fn mul_spec(self, rhs: Vector) -> Vector {
        Vector {
            x: (self.entry(0, 0) * rhs.x + self.entry(0, 1) * rhs.y + self.entry(0, 2)
                * rhs.z) as i64,
            y: (self.entry(1, 0) * rhs.x + self.entry(1, 1) * rhs.y + self.entry(1, 2)
                * rhs.z) as i64,
            z: (self.entry(2, 0) * rhs.x + self.entry(2, 1) * rhs.y + self.entry(2, 2)
                * rhs.z) as i64,
        }
    }
}

impl std::ops::Mul<Coord> for Matrix4x4 {
    type Output = Coord;

    /// The affine action of the matrix on a point: the linear part plus
    /// the translation column.
    fn mul(self, rhs: Coord) -> (c: Coord) {
        proof {
            assert(-(MUL4_RANGE as int) <= self.entry(0, 0) <= MUL4_RANGE as int);
            assert(-(MUL4_RANGE as int) <= self.entry(0, 1) <= MUL4_RANGE as int);
            assert(-(MUL4_RANGE as int) <= self.entry(0, 2) <= MUL4_RANGE as int);
            assert(-(MUL4_RANGE as int) <= self.entry(0, 3) <= MUL4_RANGE as int);
            assert(-(MUL4_RANGE as int) <= self.entry(1, 0) <= MUL4_RANGE as int);
            assert(-(MUL4_RANGE as int) <= self.entry(1, 1) <= MUL4_RANGE as int);
            assert(-(MUL4_RANGE as int) <= self.entry(1, 2) <= MUL4_RANGE as int);
            assert(-(MUL4_RANGE as int) <= self.entry(1, 3) <= MUL4_RANGE as int);
            assert(-(MUL4_RANGE as int) <= self.entry(2, 0) <= MUL4_RANGE as int);
            assert(-(MUL4_RANGE as int) <= self.entry(2, 1) <= MUL4_RANGE as int);
            assert(-(MUL4_RANGE as int) <= self.entry(2, 2) <= MUL4_RANGE as int);
            assert(-(MUL4_RANGE as int) <= self.entry(2, 3) <= MUL4_RANGE as int);
        }
        Coord::new(
            dot4(
                self.data[0][0],
                self.data[0][1],
                self.data[0][2],
                self.data[0][3],
                rhs.x,
                rhs.y,
                rhs.z,
                1,
            ),
            dot4(
                self.data[1][0],
                self.data[1][1],
                self.data[1][2],
                self.data[1][3],
                rhs.x,
                rhs.y,
                rhs.z,
                1,
            ),
            dot4(
                self.data[2][0],
                self.data[2][1],
                self.data[2][2],
                self.data[2][3],
                rhs.x,
                rhs.y,
                rhs.z,
                1,
            ),
        )
    }
}

impl vstd::std_specs::ops::MulSpecImpl<Coord> for Matrix4x4 {
    open spec fn obeys_mul_spec() -> bool {
        true
    }

    open spec fn mul_req(self, rhs: Coord) -> bool {
        &&& self.in_range(MUL4_RANGE as int)
        &&& -MUL4_RANGE <= rhs.x <= MUL4_RANGE
        &&& -MUL4_RANGE <= rhs.y <= MUL4_RANGE
        &&& -MUL4_RANGE <= rhs.z <= MUL4_RANGE
    }

    open spec fn mul_spec(self, rhs: Coord) -> Coord {
        Coord {
            x: (self.entry(0, 0) * rhs.x + self.entry(0, 1) * rhs.y + self.entry(0, 2) * rhs.z
                + self.entry(0, 3)) as i64,
            y: (self.entry(1, 0) * rhs.x + self.entry(1, 1) * rhs.y + self.entry(1, 2) * rhs.z
                + self.entry(1, 3)) as i64,
            z: (self.entry(2, 0) * rhs.x + self.entry(2, 1) * rhs.y + self.entry(2, 2) * rhs.z
                + self.entry(2, 3)) as i64,
        }
    }
}

} // verus!
