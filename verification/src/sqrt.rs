//! Integer square root.
//!
//! The weight curves grow with the square root of the position size. The
//! root is computed exactly on `u128` magnitudes by binary search, truncating
//! toward zero, and is characterised by `r * r <= x < (r + 1) * (r + 1)`.

use vstd::prelude::*;

verus! {

/// The truncating integer square root of `x`.
pub open spec fn isqrt_spec(x: nat) -> nat
    decreases x,
{
    if x == 0 {
        0
    } else if (isqrt_spec((x - 1) as nat) + 1) * (isqrt_spec((x - 1) as nat) + 1) <= x {
        isqrt_spec((x - 1) as nat) + 1
    } else {
        isqrt_spec((x - 1) as nat)
    }
}

/// `isqrt_spec(x)` is the root `x` truncates to:
/// its square is at most `x`, and the next square is beyond `x`.
pub proof fn lemma_isqrt_props(x: nat)
    ensures
        isqrt_spec(x) * isqrt_spec(x) <= x,
        x < (isqrt_spec(x) + 1) * (isqrt_spec(x) + 1),
    decreases x,
{
    if x > 0 {
        lemma_isqrt_props((x - 1) as nat);
        let p = isqrt_spec((x - 1) as nat);
        if (p + 1) * (p + 1) <= x {
            assert(isqrt_spec(x) == p + 1);
            assert((p + 1) * (p + 1) < (p + 2) * (p + 2)) by (nonlinear_arith);
            assert((isqrt_spec(x) + 1) * (isqrt_spec(x) + 1) == (p + 2) * (p + 2));
        } else {
            assert(isqrt_spec(x) == p);
            assert((isqrt_spec(x) + 1) * (isqrt_spec(x) + 1) == (p + 1) * (p + 1));
        }
    } else {
        assert(isqrt_spec(x) == 0);
        assert(x < (isqrt_spec(x) + 1) * (isqrt_spec(x) + 1)) by (nonlinear_arith)
            requires
                x == 0,
                isqrt_spec(x) == 0,
        ;
    }
}

/// There is only one truncating root: any `r` with
/// `r * r <= x < (r + 1) * (r + 1)` is `isqrt_spec(x)`.
pub proof fn lemma_isqrt_unique(x: nat, r: nat)
    requires
        r * r <= x,
        x < (r + 1) * (r + 1),
    ensures
        r == isqrt_spec(x),
{
    lemma_isqrt_props(x);
    let s = isqrt_spec(x);
    if r < s {
        assert((r + 1) * (r + 1) <= s * s) by (nonlinear_arith)
            requires
                r + 1 <= s,
        ;
    }
    if s < r {
        assert((s + 1) * (s + 1) <= r * r) by (nonlinear_arith)
            requires
                s + 1 <= r,
        ;
    }
}

/// The integer square root is monotonic non-decreasing.
pub proof fn lemma_isqrt_monotonic(x: nat, y: nat)
    requires
        x <= y,
    ensures
        isqrt_spec(x) <= isqrt_spec(y),
{
    lemma_isqrt_props(x);
    lemma_isqrt_props(y);
    let sx = isqrt_spec(x);
    let sy = isqrt_spec(y);
    if sy < sx {
        assert((sy + 1) * (sy + 1) <= sx * sx) by (nonlinear_arith)
            requires
                sy + 1 <= sx,
        ;
    }
}

/// The truncating integer square root of `x`, by binary search.
pub fn isqrt(x: u128) -> (r: u128)
    ensures
        r == isqrt_spec(x as nat),
        r * r <= x,
        x < (r + 1) * (r + 1),
{
    let mut lo: u128 = 0;
    let mut hi: u128 = 0x1_0000_0000_0000_0000;
    proof {
        assert((hi as int) * (hi as int) > x as int) by (nonlinear_arith)
            requires
                hi == 0x1_0000_0000_0000_0000,
                x <= u128::MAX,
        ;
    }
    while hi - lo > 1
        invariant
            lo < hi,
            hi <= 0x1_0000_0000_0000_0000,
            (lo as int) * (lo as int) <= x as int,
            (x as int) < (hi as int) * (hi as int),
        decreases hi - lo,
    {
        let mid: u128 = lo + (hi - lo) / 2;
        proof {
            assert((mid as int) * (mid as int) <= (0xffff_ffff_ffff_ffffu128 as int) * (
            0xffff_ffff_ffff_ffffu128 as int)) by (nonlinear_arith)
                requires
                    mid <= 0xffff_ffff_ffff_ffffu128,
            ;
        }
        if mid * mid <= x {
            lo = mid;
        } else {
            hi = mid;
        }
    }
    proof {
        lemma_isqrt_unique(x as nat, lo as nat);
    }
    lo
}

} // verus!
