//! Integer fourth root with floor semantics.
//!
//! The time-based filler reward curve scales with the fourth root of the
//! order's age.  The root is a reusable integer primitive: `fourth_root(x)`
//! is the greatest `r` with `r^4 <= x`.

use vstd::prelude::*;

verus! {

/// `r` raised to the fourth power.
pub open spec fn pow4(r: int) -> int {
    r * r * r * r
}

/// `r` is the floor fourth root of `x`.
pub open spec fn is_floor_fourth_root(x: int, r: int) -> bool {
    &&& 0 <= r
    &&& pow4(r) <= x
    &&& x < pow4(r + 1)
}

/// The floor fourth root of a non-negative integer.
pub open spec fn floor_fourth_root(x: int) -> int
    recommends
        x >= 0,
{
    choose|r: int| is_floor_fourth_root(x, r)
}

/// `pow4` is strictly monotonic on the non-negative integers.
pub proof fn lemma_pow4_strictly_increasing(a: int, b: int)
    by (nonlinear_arith)
    requires
        0 <= a,
        a < b,
    ensures
        pow4(a) < pow4(b),
{
}

/// `pow4` is monotonic on the non-negative integers.
pub proof fn lemma_pow4_increasing(a: int, b: int)
    by (nonlinear_arith)
    requires
        0 <= a,
        a <= b,
    ensures
        pow4(a) <= pow4(b),
{
}

/// Two floor fourth roots of the same value are equal.
pub proof fn lemma_floor_fourth_root_unique(x: int, r1: int, r2: int)
    requires
        is_floor_fourth_root(x, r1),
        is_floor_fourth_root(x, r2),
    ensures
        r1 == r2,
{
    if r1 < r2 {
        lemma_pow4_increasing(r1 + 1, r2);
        assert(pow4(r1 + 1) <= pow4(r2));
    }
    if r2 < r1 {
        lemma_pow4_increasing(r2 + 1, r1);
        assert(pow4(r2 + 1) <= pow4(r1));
    }
}

/// A witness fixes the value of `floor_fourth_root`.
pub proof fn lemma_floor_fourth_root_is(x: int, r: int)
    requires
        is_floor_fourth_root(x, r),
    ensures
        floor_fourth_root(x) == r,
{
    let c = floor_fourth_root(x);
    assert(is_floor_fourth_root(x, c)) by {
        assert(exists|w: int| is_floor_fourth_root(x, w)) by {
            assert(is_floor_fourth_root(x, r));
        }
    }
    lemma_floor_fourth_root_unique(x, c, r);
}

/// Greatest `r` with `r * r * r * r <= x`, found by binary search on the
/// root.  Every `u128` has its fourth root below `2^32`.
pub fn fourth_root(x: u128) -> (r: u128)
    ensures
        is_floor_fourth_root(x as int, r as int),
        r == floor_fourth_root(x as int),
{
    let mut lo: u128 = 0;
    let mut hi: u128 = 0x1_0000_0000;
    proof {
        assert(pow4(0x1_0000_0000) == 0x1_0000_0000_0000_0000_0000_0000_0000_0000int)
            by (nonlinear_arith);
        assert(x < pow4(hi as int));
    }
    while hi - lo > 1
        invariant
            lo < hi <= 0x1_0000_0000,
            pow4(lo as int) <= x as int,
            (x as int) < pow4(hi as int),
        decreases hi - lo,
    {
        let mid = lo + (hi - lo) / 2;
        assert(lo < mid < hi);
        assert(mid * mid <= 0xffff_ffff_0000_0001u128) by (nonlinear_arith)
            requires
                mid <= 0xffff_ffffu128,
        ;
        let sq = mid * mid;
        assert(sq * sq <= u128::MAX) by (nonlinear_arith)
            requires
                sq <= 0xffff_ffff_0000_0001u128,
        ;
        let fourth = sq * sq;
        assert(fourth == pow4(mid as int)) by (nonlinear_arith)
            requires
                sq == (mid as int) * (mid as int),
                fourth == (sq as int) * (sq as int),
        ;
        if fourth <= x {
            lo = mid;
        } else {
            hi = mid;
        }
    }
    proof {
        assert(hi == lo + 1);
        lemma_floor_fourth_root_is(x as int, lo as int);
    }
    lo
}

} // verus!
