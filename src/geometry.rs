use vstd::arithmetic::div_mod::lemma_fundamental_div_mod;
use vstd::arithmetic::div_mod::lemma_fundamental_div_mod_converse_div;
use vstd::prelude::*;

verus! {

/// Fixed-point steps per world pixel.
pub const FIXED_ONE: i64 = 1000;

/// Largest magnitude a world coordinate or a grid extent may take.
pub const WORLD_LIMIT: i64 = 1_000_000_000_000_000;

/// A point in world space, in fixed-point units.
#[derive(Debug, Clone, Copy, PartialEq, Eq, Structural)]
pub struct AxisPosition {
    pub x: i64,
    pub y: i64,
}

/// A width and a height in fixed-point units.
#[derive(Debug, Clone, Copy, PartialEq, Eq, Structural)]
pub struct Size {
    pub width: i64,
    pub height: i64,
}

/// The window's size in screen pixels.
#[derive(Debug, Clone, Copy, PartialEq, Eq, Structural)]
pub struct Viewport {
    pub width: u32,
    pub height: u32,
}

/// A point in screen space, in pixels, origin at the window's top-left.
#[derive(Debug, Clone, Copy, PartialEq, Eq, Structural)]
pub struct ScreenPoint {
    pub x: i32,
    pub y: i32,
}

/// An axis-aligned world-space rectangle: top-left corner and extent.
#[derive(Debug, Clone, Copy, PartialEq, Eq, Structural)]
pub struct Rect {
    pub x: i64,
    pub y: i64,
    pub w: i64,
    pub h: i64,
}

pub open spec fn within_world(v: int) -> bool {
    -WORLD_LIMIT <= v <= WORLD_LIMIT
}

/// `v` moved into `[-WORLD_LIMIT, WORLD_LIMIT]`.
pub open spec fn bound_to_world(v: int) -> int {
    if v < -WORLD_LIMIT {
        -WORLD_LIMIT as int
    } else if v > WORLD_LIMIT {
        WORLD_LIMIT as int
    } else {
        v
    }
}

pub proof fn lemma_floor_div_unique(n: int, d: int, q: int)
    requires
        d > 0,
        q * d <= n < q * d + d,
    ensures
        n / d == q,
{
    lemma_fundamental_div_mod_converse_div(n, d, q, n - q * d);
}

/// Floor of `n / d` for a positive divisor, whatever the sign of `n`.
pub fn floor_div(n: i128, d: i128) -> (q: i128)
    requires
        0 < d <= 0x1_0000_0000_0000_0000,
        -0x1_0000_0000_0000_0000_0000_0000 <= n <= 0x1_0000_0000_0000_0000_0000_0000,
    ensures
        q == n / d,
        q * d <= n < q * d + d,
        0 <= n ==> 0 <= q <= n,
        n < 0 ==> n <= q < 0,
{
    proof {
        lemma_fundamental_div_mod(n as int, d as int);
        let r = (n as int) % (d as int);
        assert(((n as int) / (d as int)) * d == d * ((n as int) / (d as int))) by (nonlinear_arith);
        assert(0 <= r < d);
        assert(0 <= n ==> (n as int) / (d as int) <= n) by (nonlinear_arith)
            requires
                n as int == d * ((n as int) / (d as int)) + r,
                0 <= r,
                d >= 1,
        ;
        assert(0 <= n ==> (n as int) / (d as int) >= 0) by (nonlinear_arith)
            requires
                n as int == d * ((n as int) / (d as int)) + r,
                r < d,
                d >= 1,
        ;
        assert(n < 0 ==> (n as int) / (d as int) >= n) by (nonlinear_arith)
            requires
                n as int == d * ((n as int) / (d as int)) + r,
                r < d,
                d >= 1,
        ;
        assert(n < 0 ==> (n as int) / (d as int) < 0) by (nonlinear_arith)
            requires
                n as int == d * ((n as int) / (d as int)) + r,
                0 <= r,
                d >= 1,
        ;
    }
    if n >= 0 {
        n / d
    } else {
        let m = -n;
        let t = (m + d - 1) / d;
        proof {
            let mi = m as int;
            let di = d as int;
            let ti = t as int;
            lemma_fundamental_div_mod(mi + di - 1, di);
            let r = (mi + di - 1) % di;
            assert(0 <= r < di);
            assert(ti * di == mi + di - 1 - r) by (nonlinear_arith)
                requires
                    mi + di - 1 == di * ti + r,
            ;
            assert((-ti) * di == -(ti * di)) by (nonlinear_arith);
            lemma_floor_div_unique(n as int, di, -ti);
        }
        -t
    }
}

/// Half of `v`, rounded down.
pub fn half(v: i64) -> (r: i64)
    ensures
        r == v / 2,
{
    if v >= 0 {
        v / 2
    } else {
        let r = -((-(v as i128) + 1) / 2);
        proof {
            lemma_floor_div_unique(v as int, 2, r as int);
        }
        r as i64
    }
}

/// `v` moved into `[-WORLD_LIMIT, WORLD_LIMIT]`.
pub fn bound_world(v: i64) -> (r: i64)
    ensures
        r == bound_to_world(v as int),
        within_world(r as int),
{
    if v < -WORLD_LIMIT {
        -WORLD_LIMIT
    } else if v > WORLD_LIMIT {
        WORLD_LIMIT
    } else {
        v
    }
}

} // verus!
