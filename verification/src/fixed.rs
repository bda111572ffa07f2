//! Fixed-point units and the integer arithmetic shared by the whole engine.
//!
//! World coordinates are integers counted in sub-units: 256 sub-units make one
//! world unit and 64 world units make one tile edge. Trigonometric values are
//! integers scaled by [`TRIG_ONE`].

use vstd::arithmetic::div_mod::lemma_fundamental_div_mod;
use vstd::arithmetic::div_mod::lemma_fundamental_div_mod_converse;
use vstd::prelude::*;

verus! {

/// Sub-units in one world unit.
pub const SUBUNITS: i64 = 256;

/// Sub-units along one tile edge (64 world units).
pub const TILE: i64 = 16384;

/// The fixed-point representation of the number one for sines and cosines.
pub const TRIG_ONE: i64 = 65536;

/// Largest magnitude of a coordinate that an actor may hold.
pub const WORLD_LIMIT: i64 = 0x100_0000_0000;

/// Largest magnitude of a coordinate whose distances can still be measured.
pub const COORD_LIMIT: i64 = 0x2000_0000_0000_0000;

/// `r` is the integer square root of `n`, rounded down.
pub open spec fn is_floor_sqrt(n: int, r: int) -> bool {
    0 <= r && r * r <= n < (r + 1) * (r + 1)
}

/// The integer square root of `n`, rounded down.
pub open spec fn floor_sqrt(n: int) -> int {
    choose|r: int| is_floor_sqrt(n, r)
}

/// The value `v` limited to the range from `lo` to `hi`.
pub open spec fn clamped(v: int, lo: int, hi: int) -> int {
    if v < lo {
        lo
    } else if v > hi {
        hi
    } else {
        v
    }
}

/// The magnitude of `v`.
pub open spec fn magnitude(v: int) -> int {
    if v < 0 {
        -v
    } else {
        v
    }
}

/// Square of the Euclidean distance between two points.
pub open spec fn dist_squared(ax: int, ay: int, bx: int, by: int) -> int {
    (bx - ax) * (bx - ax) + (by - ay) * (by - ay)
}

/// Euclidean distance between two points, rounded down.
pub open spec fn dist_spec(ax: int, ay: int, bx: int, by: int) -> int {
    floor_sqrt(dist_squared(ax, ay, bx, by))
}

/// A number has at most one rounded-down square root.
pub proof fn lemma_floor_sqrt_unique(n: int, r: int, s: int)
    requires
        is_floor_sqrt(n, r),
        is_floor_sqrt(n, s),
    ensures
        r == s,
{
    if r < s {
        assert((r + 1) * (r + 1) <= s * s) by (nonlinear_arith)
            requires
                0 <= r,
                r + 1 <= s,
        ;
    } else if s < r {
        assert((s + 1) * (s + 1) <= r * r) by (nonlinear_arith)
            requires
                0 <= s,
                s + 1 <= r,
        ;
    }
}

/// Whatever meets [`is_floor_sqrt`] is the value of [`floor_sqrt`].
pub proof fn lemma_floor_sqrt_is(n: int, r: int)
    requires
        is_floor_sqrt(n, r),
    ensures
        floor_sqrt(n) == r,
{
    lemma_floor_sqrt_unique(n, r, floor_sqrt(n));
}

/// Quotient of `a` by a positive `b`, rounded towards minus infinity.
pub fn floor_div(a: i64, b: i64) -> (q: i64)
    requires
        b > 0,
    ensures
        q == a / b,
{
    if a >= 0 {
        a / b
    } else {
        let n: i64 = -(a + 1);
        let k: i64 = n / b;
        proof {
            let r: int = (n as int) % (b as int);
            lemma_fundamental_div_mod(n as int, b as int);
            assert(b * (-k - 1) + (b - 1 - r) == a) by (nonlinear_arith)
                requires
                    n == b * k + r,
                    n == -(a + 1),
            ;
            lemma_fundamental_div_mod_converse(a as int, b as int, -k - 1, b - 1 - r);
        }
        -k - 1
    }
}

/// Remainder of `a` by a positive `b`, always in `0..b`.
pub fn floor_mod(a: i64, b: i64) -> (r: i64)
    requires
        b > 0,
    ensures
        r == a % b,
        0 <= r < b,
{
    if a >= 0 {
        a % b
    } else {
        let n: i64 = -(a + 1);
        let m: i64 = n % b;
        proof {
            let k: int = (n as int) / (b as int);
            lemma_fundamental_div_mod(n as int, b as int);
            assert(b * (-k - 1) + (b - 1 - m) == a) by (nonlinear_arith)
                requires
                    n == b * k + m,
                    n == -(a + 1),
            ;
            lemma_fundamental_div_mod_converse(a as int, b as int, -k - 1, b - 1 - m);
        }
        b - 1 - m
    }
}

/// Limits `v` to the range from `lo` to `hi`.
pub fn clamp(v: i64, lo: i64, hi: i64) -> (r: i64)
    requires
        lo <= hi,
    ensures
        r == clamped(v as int, lo as int, hi as int),
        lo <= r <= hi,
{
    if v < lo {
        lo
    } else if v > hi {
        hi
    } else {
        v
    }
}

/// Integer square root, rounded down.
pub fn isqrt(n: u128) -> (r: u64)
    ensures
        is_floor_sqrt(n as int, r as int),
        r == floor_sqrt(n as int),
{
    let mut lo: u128 = 0;
    let mut hi: u128 = 0x1_0000_0000_0000_0000;
    assert(n < hi * hi) by (nonlinear_arith)
        requires
            hi == 0x1_0000_0000_0000_0000,
            n <= u128::MAX,
    ;
    while hi - lo > 1
        invariant
            lo < hi <= 0x1_0000_0000_0000_0000,
            lo * lo <= n < hi * hi,
        decreases hi - lo,
    {
        let mid: u128 = lo + (hi - lo) / 2;
        assert(mid * mid <= u128::MAX) by (nonlinear_arith)
            requires
                0 <= mid <= 0xffff_ffff_ffff_ffff,
        ;
        if mid * mid <= n {
            lo = mid;
        } else {
            hi = mid;
        }
    }
    proof {
        lemma_floor_sqrt_is(n as int, lo as int);
    }
    lo as u64
}

/// Euclidean distance between the points `(ax, ay)` and `(bx, by)`, rounded
/// down to a whole number of sub-units.
pub fn dist(ax: i64, ay: i64, bx: i64, by: i64) -> (d: i64)
    requires
        -COORD_LIMIT <= ax <= COORD_LIMIT,
        -COORD_LIMIT <= ay <= COORD_LIMIT,
        -COORD_LIMIT <= bx <= COORD_LIMIT,
        -COORD_LIMIT <= by <= COORD_LIMIT,
    ensures
        d == dist_spec(ax as int, ay as int, bx as int, by as int),
        is_floor_sqrt(dist_squared(ax as int, ay as int, bx as int, by as int), d as int),
        0 <= d <= magnitude(bx - ax) + magnitude(by - ay),
{
    let dx: i128 = bx as i128 - ax as i128;
    let dy: i128 = by as i128 - ay as i128;
    let ux: u128 = if dx < 0 {
        (-dx) as u128
    } else {
        dx as u128
    };
    let uy: u128 = if dy < 0 {
        (-dy) as u128
    } else {
        dy as u128
    };
    assert(ux * ux == dx * dx && ux * ux <= 0x1000_0000_0000_0000_0000_0000_0000_0000)
        by (nonlinear_arith)
        requires
            ux == dx || ux == -dx,
            0 <= ux <= 0x4000_0000_0000_0000,
    ;
    assert(uy * uy == dy * dy && uy * uy <= 0x1000_0000_0000_0000_0000_0000_0000_0000)
        by (nonlinear_arith)
        requires
            uy == dy || uy == -dy,
            0 <= uy <= 0x4000_0000_0000_0000,
    ;
    let sum: u128 = ux * ux + uy * uy;
    let root: u64 = isqrt(sum);
    assert(root < 0x8000_0000_0000_0000) by (nonlinear_arith)
        requires
            root * root <= sum,
            sum <= 0x2000_0000_0000_0000_0000_0000_0000_0000,
            0 <= root,
    ;
    assert(root <= ux + uy) by (nonlinear_arith)
        requires
            root * root <= ux * ux + uy * uy,
            0 <= root,
            0 <= ux,
            0 <= uy,
    ;
    root as i64
}

/// The quotient of a bounded number by a positive number keeps the bound.
pub proof fn lemma_floor_div_bound(n: int, d: int, m: int)
    requires
        d > 0,
        -m <= n <= m,
    ensures
        -m <= n / d <= m,
{
    lemma_fundamental_div_mod(n, d);
    assert(-m <= n / d <= m) by (nonlinear_arith)
        requires
            d > 0,
            -m <= n <= m,
            n == d * (n / d) + n % d,
            0 <= n % d < d,
    ;
}

} // verus!
