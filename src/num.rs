//! Fixed-point conventions and integer square roots.
use vstd::prelude::*;

verus! {

/// One whole unit of a fixed-point quantity: quantities are stored in thousandths.
pub const UNIT: i64 = 1000;

/// Bound on the magnitude of energies and material constants, in thousandths.
pub const LIMIT: i64 = 1_000_000_000_000;

/// `r` is the integer square root of `n`, rounded down.
pub open spec fn is_floor_sqrt(n: int, r: int) -> bool {
    0 <= r && r * r <= n && n < (r + 1) * (r + 1)
}

/// `r` is the square root of `n` rounded to the nearest integer.
/// (A square root of an integer is never exactly halfway between two integers.)
pub open spec fn is_round_sqrt(n: int, r: int) -> bool {
    &&& 0 <= r
    &&& 4 * n < (2 * r + 1) * (2 * r + 1)
    &&& r > 0 ==> (2 * r - 1) * (2 * r - 1) <= 4 * n
}

/// The square root of `n` rounded down.
pub fn isqrt(n: u128) -> (r: u128)
    ensures
        is_floor_sqrt(n as int, r as int),
        r < 0x1_0000_0000_0000_0000,
{
    let mut lo: u128 = 0;
    let mut hi: u128 = 0x1_0000_0000_0000_0000;
    assert((hi as int) * (hi as int) == 0x1_0000_0000_0000_0000_0000_0000_0000_0000int);
    while hi - lo > 1
        invariant
            lo < hi,
            hi <= 0x1_0000_0000_0000_0000,
            lo * lo <= n,
            (n as int) < (hi as int) * (hi as int),
        decreases hi - lo,
    {
        let mid = lo + (hi - lo) / 2;
        assert((mid as int) * (mid as int) < 0x1_0000_0000_0000_0000_0000_0000_0000_0000int)
            by (nonlinear_arith)
            requires
                0 <= mid < 0x1_0000_0000_0000_0000int,
        ;
        if mid * mid <= n {
            lo = mid;
        } else {
            hi = mid;
        }
    }
    assert(hi == lo + 1);
    lo
}

/// The square root of `n` rounded to the nearest integer.
pub fn round_sqrt(n: u128) -> (r: u128)
    ensures
        is_round_sqrt(n as int, r as int),
        r <= 0x1_0000_0000_0000_0000,
{
    let f = isqrt(n);
    proof {
        crate::num_proofs::lemma_round_from_floor(n as int, f as int);
    }
    if n - f * f > f {
        f + 1
    } else {
        f
    }
}

} // verus!

verus! {

/// The integer square root of `n`, rounded down.
pub open spec fn floor_sqrt(n: int) -> int {
    choose|r: int| is_floor_sqrt(n, r)
}

/// The exact integer square root of a non-negative number: `isqrt` with the
/// result named by `floor_sqrt`.
pub fn floor_sqrt_exec(n: u128) -> (r: u128)
    ensures
        r == floor_sqrt(n as int),
        is_floor_sqrt(n as int, r as int),
{
    let r = isqrt(n);
    proof {
        crate::num_proofs::lemma_floor_sqrt_unique(n as int, r as int, floor_sqrt(n as int));
    }
    r
}

} // verus!
