//! Integer square root and distance helpers for the milli-unit world
//! coordinates.

use vstd::prelude::*;

verus! {

/// Floor of the square root: the greatest `r` with `r·r ≤ x`.
pub fn isqrt(x: u64) -> (r: u64)
    ensures
        r * r <= x,
        (r + 1) * (r + 1) > x,
        r <= 0xFFFF_FFFF,
{
    if x == 0 {
        return 0;
    }
    let mut lo: u64 = 0;
    let mut hi: u64 = 0x1_0000_0000;
    while hi - lo > 1
        invariant
            lo < hi,
            hi <= 0x1_0000_0000,
            lo * lo <= x,
            (hi as int) * (hi as int) > x,
        decreases hi - lo,
    {
        let mid = lo + (hi - lo) / 2;
        proof {
            assert(mid < hi);
            assert(mid <= 0xFFFF_FFFF);
            assert(mid * mid <= 0xFFFF_FFFF * 0xFFFF_FFFF) by (nonlinear_arith)
                requires
                    mid <= 0xFFFF_FFFF,
            ;
        }
        if mid * mid <= x {
            lo = mid;
        } else {
            hi = mid;
        }
    }
    proof {
        assert(hi == lo + 1);
    }
    lo
}

/// Ceiling of the square root: the least `r` with `r·r ≥ x`.
pub fn isqrt_ceil(x: u64) -> (r: u64)
    ensures
        r * r >= x,
        r > 0 ==> ((r - 1) * (r - 1)) < x,
        r <= 0x1_0000_0000,
{
    let f = isqrt(x);
    if f * f == x {
        proof {
            if f > 0 {
                assert((f - 1) * (f - 1) < f * f) by (nonlinear_arith)
                    requires
                        f >= 1,
                ;
            }
        }
        f
    } else {
        proof {
            assert((f + 1) * (f + 1) > x);
        }
        f + 1
    }
}

/// Absolute value of a coordinate difference, as an unsigned value.
pub fn abs_diff(a: i64, b: i64) -> (r: u64)
    requires
        -1_000_000_000_000 <= a <= 1_000_000_000_000,
        -1_000_000_000_000 <= b <= 1_000_000_000_000,
    ensures
        r == if a >= b {
            a - b
        } else {
            b - a
        },
{
    if a >= b {
        (a - b) as u64
    } else {
        (b - a) as u64
    }
}

/// Chebyshev distance: the greater of the coordinate distances.
pub fn chebyshev_distance(ax: i64, ay: i64, bx: i64, by: i64) -> (r: u64)
    requires
        -1_000_000_000_000 <= ax <= 1_000_000_000_000,
        -1_000_000_000_000 <= ay <= 1_000_000_000_000,
        -1_000_000_000_000 <= bx <= 1_000_000_000_000,
        -1_000_000_000_000 <= by <= 1_000_000_000_000,
    ensures
        r == spec_chebyshev(ax as int, ay as int, bx as int, by as int),
{
    let dx = abs_diff(ax, bx);
    let dy = abs_diff(ay, by);
    if dx >= dy {
        dx
    } else {
        dy
    }
}

/// Chebyshev distance over the integers.
pub open spec fn spec_chebyshev(ax: int, ay: int, bx: int, by: int) -> int {
    let dx = if ax >= bx {
        ax - bx
    } else {
        bx - ax
    };
    let dy = if ay >= by {
        ay - by
    } else {
        by - ay
    };
    if dx >= dy {
        dx
    } else {
        dy
    }
}

/// Squared Euclidean distance, for range checks without a square root.
pub fn dist_sq(ax: i64, ay: i64, bx: i64, by: i64) -> (r: u64)
    requires
        -1_000_000_000_000 <= ax <= 1_000_000_000_000,
        -1_000_000_000_000 <= ay <= 1_000_000_000_000,
        -1_000_000_000_000 <= bx <= 1_000_000_000_000,
        -1_000_000_000_000 <= by <= 1_000_000_000_000,
        spec_dist_sq(ax as int, ay as int, bx as int, by as int) <= u64::MAX,
    ensures
        r == spec_dist_sq(ax as int, ay as int, bx as int, by as int),
{
    let dx = abs_diff(ax, bx);
    let dy = abs_diff(ay, by);
    proof {
        assert((dx as int) * (dx as int) + (dy as int) * (dy as int) == spec_dist_sq(
            ax as int,
            ay as int,
            bx as int,
            by as int,
        )) by (nonlinear_arith)
            requires
                dx == if ax >= bx {
                    ax - bx
                } else {
                    bx - ax
                },
                dy == if ay >= by {
                    ay - by
                } else {
                    by - ay
                },
        ;
    }
    dx * dx + dy * dy
}

/// Squared Euclidean distance over the integers.
pub open spec fn spec_dist_sq(ax: int, ay: int, bx: int, by: int) -> int {
    (ax - bx) * (ax - bx) + (ay - by) * (ay - by)
}

/// The integer square root, rounded down.
pub open spec fn spec_isqrt(n: int) -> int {
    choose|q: int| 0 <= q && #[trigger] (q * q) <= n && n < (q + 1) * (q + 1)
}

/// The integer square root, rounded up.
pub open spec fn spec_isqrt_ceil(n: int) -> int {
    if spec_isqrt(n) * spec_isqrt(n) == n {
        spec_isqrt(n)
    } else {
        spec_isqrt(n) + 1
    }
}

/// A value bracketed by consecutive squares is the rounded-down root.
pub proof fn lemma_isqrt_bounds(n: int, r: int)
    requires
        0 <= r,
        r * r <= n,
        n < (r + 1) * (r + 1),
    ensures
        spec_isqrt(n) == r,
{
    assert(exists|q: int| 0 <= q && #[trigger] (q * q) <= n && n < (q + 1) * (q + 1)) by {
        assert(0 <= r && r * r <= n && n < (r + 1) * (r + 1));
    }
    let c = spec_isqrt(n);
    assert(0 <= c && c * c <= n && n < (c + 1) * (c + 1));
    assert(c == r) by (nonlinear_arith)
        requires
            0 <= r,
            r * r <= n,
            n < (r + 1) * (r + 1),
            0 <= c,
            c * c <= n,
            n < (c + 1) * (c + 1),
    ;
}

/// The least value whose square reaches `n` is the rounded-up root.
pub proof fn lemma_isqrt_ceil_bounds(n: int, r: int)
    requires
        0 <= n,
        0 <= r,
        r * r >= n,
        r > 0 ==> (r - 1) * (r - 1) < n,
    ensures
        spec_isqrt_ceil(n) == r,
{
    if r == 0 {
        assert(n == 0);
        lemma_isqrt_bounds(0, 0);
    } else if r * r == n {
        assert(n < (r + 1) * (r + 1)) by (nonlinear_arith)
            requires
                r >= 0,
                r * r == n,
        ;
        lemma_isqrt_bounds(n, r);
    } else {
        lemma_isqrt_bounds(n, r - 1);
        assert((r - 1) * (r - 1) < n);
    }
}

} // verus!
