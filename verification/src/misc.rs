//! Shared helpers: the Euclidean pull distance of the stroke gesture, scaled
//! by an inverse time constant.

use vstd::prelude::*;

use crate::geom::{vec3_bounded, Vec3};
use crate::num::{abs_u64, isqrt, sqrt_floor};

verus! {

/// Squared planar distance between `a` and `b` (the layering axis is ignored).
pub open spec fn dist_sq(a: Vec3, b: Vec3) -> int {
    (a.x - b.x) * (a.x - b.x) + (a.y - b.y) * (a.y - b.y)
}

/// Planar distance between `a` and `b`, divided by the time constant `t_ms`
/// (milliseconds): the floor of the square root of the squared distance,
/// rescaled from per-millisecond to per-second.
pub open spec fn dist_spec(a: Vec3, b: Vec3, t_ms: int) -> int
    recommends
        t_ms > 0,
{
    (sqrt_floor(dist_sq(a, b) as nat) as int) * 1000 / t_ms
}

/// Pull distance of a stroke gesture: Euclidean distance between the gesture's
/// anchor `a` and the cursor `b`, over the time constant `t_ms`.
pub fn get_dist(a: Vec3, b: Vec3, t_ms: u64) -> (r: i64)
    requires
        vec3_bounded(a, crate::CURSOR_LIMIT),
        vec3_bounded(b, crate::CURSOR_LIMIT),
        0 < t_ms,
    ensures
        r == dist_spec(a, b, t_ms as int),
        0 <= r <= 5_000_000_000_000i64,
{
    let dx: i64 = a.x - b.x;
    let dy: i64 = a.y - b.y;
    let mdx: u64 = abs_u64(dx);
    let mdy: u64 = abs_u64(dy);
    proof {
        assert((mdx as int) * (mdx as int) == (dx as int) * (dx as int)
            && (mdx as int) * (mdx as int) <= 2_000_000_000i64 * 2_000_000_000)
            by (nonlinear_arith)
            requires
                mdx == crate::num::abs_i(dx as int),
                -2_000_000_000i64 <= dx <= 2_000_000_000i64,
        ;
        assert((mdy as int) * (mdy as int) == (dy as int) * (dy as int)
            && (mdy as int) * (mdy as int) <= 2_000_000_000i64 * 2_000_000_000)
            by (nonlinear_arith)
            requires
                mdy == crate::num::abs_i(dy as int),
                -2_000_000_000i64 <= dy <= 2_000_000_000i64,
        ;
    }
    let sx: u64 = mdx * mdx;
    let sy: u64 = mdy * mdy;
    let s: u64 = sx + sy;
    let g: u64 = isqrt(s);
    let scaled: u64 = (g * 1000) / t_ms;
    proof {
        assert((g * 1000) as int / (t_ms as int) <= (g * 1000) as int) by (nonlinear_arith)
            requires
                t_ms >= 1,
                g * 1000 >= 0,
        ;
    }
    scaled as i64
}

} // verus!
