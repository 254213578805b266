//! Arithmetic facts behind the square-root routines.
use vstd::prelude::*;
use crate::num::{is_floor_sqrt, is_round_sqrt};

verus! {

pub proof fn lemma_round_from_floor(n: int, f: int)
    requires
        is_floor_sqrt(n, f),
    ensures
        n - f * f > f ==> is_round_sqrt(n, f + 1),
        n - f * f <= f ==> is_round_sqrt(n, f),
{
    if n - f * f > f {
        assert(4 * n < (2 * (f + 1) + 1) * (2 * (f + 1) + 1)) by (nonlinear_arith)
            requires n < (f + 1) * (f + 1), f >= 0;
        assert((2 * (f + 1) - 1) * (2 * (f + 1) - 1) <= 4 * n) by (nonlinear_arith)
            requires n - f * f > f;
    } else {
        assert(4 * n < (2 * f + 1) * (2 * f + 1)) by (nonlinear_arith)
            requires n - f * f <= f;
        assert(f > 0 ==> (2 * f - 1) * (2 * f - 1) <= 4 * n) by (nonlinear_arith)
            requires f * f <= n;
    }
}

/// The nearest-integer square root is unique.
pub proof fn lemma_round_sqrt_unique(n: int, a: int, b: int)
    requires
        is_round_sqrt(n, a),
        is_round_sqrt(n, b),
    ensures
        a == b,
{
    assert(a <= b) by {
        if a > b {
            assert((2 * b + 1) * (2 * b + 1) <= (2 * a - 1) * (2 * a - 1)) by (nonlinear_arith)
                requires a > b, b >= 0;
        }
    }
    assert(b <= a) by {
        if b > a {
            assert((2 * a + 1) * (2 * a + 1) <= (2 * b - 1) * (2 * b - 1)) by (nonlinear_arith)
                requires b > a, a >= 0;
        }
    }
}

} // verus!

verus! {

/// The rounded-down square root is unique.
pub proof fn lemma_floor_sqrt_unique(n: int, a: int, b: int)
    requires
        is_floor_sqrt(n, a),
    ensures
        is_floor_sqrt(n, b) ==> a == b,
        is_floor_sqrt(n, crate::num::floor_sqrt(n)),
        a == crate::num::floor_sqrt(n),
{
    assert(exists|r: int| is_floor_sqrt(n, r));
    if is_floor_sqrt(n, b) {
        if a < b {
            assert((a + 1) * (a + 1) <= b * b) by (nonlinear_arith)
                requires a < b, a >= 0;
        }
        if b < a {
            assert((b + 1) * (b + 1) <= a * a) by (nonlinear_arith)
                requires b < a, b >= 0;
        }
    }
    let c = crate::num::floor_sqrt(n);
    if a < c {
        assert((a + 1) * (a + 1) <= c * c) by (nonlinear_arith)
            requires a < c, a >= 0;
    }
    if c < a {
        assert((c + 1) * (c + 1) <= a * a) by (nonlinear_arith)
            requires c < a, c >= 0;
    }
}

} // verus!
