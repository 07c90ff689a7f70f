//! Bounds that keep exact integer arithmetic inside the machine word.

use vstd::prelude::*;

verus! {

/// Whether a mathematical integer fits in an `i64`.
pub open spec fn fits(x: int) -> bool {
    i64::MIN <= x <= i64::MAX
}

/// The row or column index of the full matrix that position `i` of a
/// submatrix maps back to, once row or column `removed` is gone.
pub open spec fn skip_index(removed: int, i: int) -> int {
    if i < removed {
        i
    } else {
        i + 1
    }
}

/// A product of two bounded factors is bounded by the product of the
/// bounds.
pub proof fn lemma_mul_fits(a: int, b: int, ba: int, bb: int)
    by (nonlinear_arith)
    requires
        -ba <= a <= ba,
        -bb <= b <= bb,
        0 <= ba,
        0 <= bb,
        ba * bb <= i64::MAX,
    ensures
        fits(a * b),
        -(ba * bb) <= a * b <= ba * bb,
{
}

} // verus!
