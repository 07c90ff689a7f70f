//! The 2x2 corner of the square matrix family: the base case that the
//! larger determinants expand into.

use vstd::prelude::*;

use crate::num::lemma_mul_fits;

verus! {

/// Entries this large keep a 2x2 determinant inside an `i64`.
pub const DET2_RANGE: i64 = 2_000_000_000;

/// A 2x2 matrix of exact integers.
#[derive(Debug, Clone, Copy, PartialEq, Eq)]
pub struct Matrix2x2 {
    pub data: [[i64; 2]; 2],
}

impl Matrix2x2 {
    /// The entry in row `r`, column `c`, as a mathematical integer.
    pub open spec fn entry(self, r: int, c: int) -> int {
        self.data[r][c] as int
    }

    /// Every entry lies within `-b ..= b`.
    pub open spec fn in_range(self, b: int) -> bool {
        forall|r: int, c: int| 0 <= r < 2 && 0 <= c < 2 ==> -b <= #[trigger] self.entry(r, c) <= b
    }

    /// The determinant `ad - bc`.
    pub open spec fn spec_det(self) -> int {
        self.entry(0, 0) * self.entry(1, 1) - self.entry(0, 1) * self.entry(1, 0)
    }

    /// The adjugate entry in row `r`, column `c`: the signed opposite
    /// entry, so that the adjugate times the matrix is the determinant
    /// times the identity.
    pub open spec fn adjugate_entry(self, r: int, c: int) -> int {
        if r == 0 && c == 0 {
            self.entry(1, 1)
        } else if r == 0 && c == 1 {
            -self.entry(0, 1)
        } else if r == 1 && c == 0 {
            -self.entry(1, 0)
        } else {
            self.entry(0, 0)
        }
    }

    /// The matrix dimensions.
    pub fn size() -> (s: (usize, usize))
        ensures
            s == (2usize, 2usize),
    {
        (2, 2)
    }

    /// The determinant, by the direct `ad - bc` formula.
    pub fn det(&self) -> (d: i64)
        requires
            self.in_range(DET2_RANGE as int),
        ensures
            d == self.spec_det(),
    {
        proof {
            lemma_mul_fits(
                self.entry(0, 0),
                self.entry(1, 1),
                DET2_RANGE as int,
                DET2_RANGE as int,
            );
            lemma_mul_fits(
                self.entry(0, 1),
                self.entry(1, 0),
                DET2_RANGE as int,
                DET2_RANGE as int,
            );
        }
        self.data[0][0] * self.data[1][1] - self.data[0][1] * self.data[1][0]
    }

    /// The exact inverse, as the adjugate together with the determinant
    /// it still has to be divided by: the pair `(adj, d)` stands for the
    /// matrix `adj / d`. Returns `None` exactly when the determinant is
    /// zero and no inverse exists.
    pub fn inverse(&self) -> (r: Option<(Matrix2x2, i64)>)
        requires
            self.in_range(DET2_RANGE as int),
        ensures
            r is None <==> self.spec_det() == 0,
            match r {
                Some((adj, d)) => {
                    &&& d == self.spec_det()
                    &&& forall|i: int, j: int|
                        0 <= i < 2 && 0 <= j < 2 ==> #[trigger] adj.entry(i, j)
                            == self.adjugate_entry(i, j)
                },
                None => self.spec_det() == 0,
            },
    {
        let d = self.det();
        if d == 0 {
            return None;
        }
        let adj = Matrix2x2 {
            data: [[self.data[1][1], -self.data[0][1]], [-self.data[1][0], self.data[0][0]]],
        };
        Some((adj, d))
    }
}

/// Multiplying a matrix by its adjugate yields the determinant down the
/// diagonal and zero elsewhere: the exact statement that the adjugate
/// divided by the determinant is the inverse.
pub proof fn lemma_mul_adjugate_identity2(m: Matrix2x2, i: int, j: int)
    by (nonlinear_arith)
    requires
        0 <= i < 2,
        0 <= j < 2,
    ensures
        m.entry(i, 0) * m.adjugate_entry(0, j) + m.entry(i, 1) * m.adjugate_entry(1, j) == if i
            == j {
            m.spec_det()
        } else {
            0
        },
{
}

} // verus!
