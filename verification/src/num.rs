//! Exact integer arithmetic for the fixed-point model: truncating division,
//! the scaled displacement product of the motion integrator, and the integer
//! square root used by the pull-distance formula.

use vstd::prelude::*;

verus! {

/// Magnitude of an integer.
pub open spec fn abs_i(a: int) -> int {
    if a >= 0 {
        a
    } else {
        -a
    }
}

/// Quotient of `a` by `d`, rounded toward zero.
pub open spec fn div_t(a: int, d: int) -> int
    recommends
        d > 0,
{
    if a >= 0 {
        a / d
    } else {
        -((-a) / d)
    }
}

/// Truncating division on machine integers.
pub fn div_trunc(a: i64, d: i64) -> (r: i64)
    requires
        0 < d,
        a > i64::MIN,
    ensures
        r == div_t(a as int, d as int),
        -abs_i(a as int) <= r <= abs_i(a as int),
{
    if a >= 0 {
        let q: u64 = (a as u64) / (d as u64);
        q as i64
    } else {
        let q: u64 = ((-a) as u64) / (d as u64);
        -(q as i64)
    }
}

/// Magnitude of an `i64` other than `i64::MIN`, as a `u64`.
pub fn abs_u64(a: i64) -> (m: u64)
    requires
        a > i64::MIN,
    ensures
        m == abs_i(a as int),
{
    if a >= 0 {
        a as u64
    } else {
        (-a) as u64
    }
}

/// One axis of the ball's displacement over a tick:
/// `vel * dir * dt_ms * k / 1_000_000`, rounded toward zero.
/// `vel` is in milli units per second, `dir` is a dimensionless milli factor,
/// `dt_ms` is the tick's elapsed time in milliseconds, and `k` is an extra
/// integer factor; dividing by `1000 * 1000` removes the milli of `dir` and
/// converts milliseconds to seconds.
pub open spec fn disp_spec(vel: int, dir: int, dt_ms: int, k: int) -> int {
    div_t(vel * dir * dt_ms * k, 1_000_000)
}

/// Computes `disp_spec` without overflow by working on magnitudes in `u128`.
pub fn scaled_disp(vel: i64, dir: i64, dt_ms: u64, k: u64) -> (r: i64)
    requires
        -100_000 <= vel <= 100_000,
        -crate::DIR_LIMIT <= dir <= crate::DIR_LIMIT,
        dt_ms <= crate::DT_LIMIT,
        k <= 20,
    ensures
        r == disp_spec(vel as int, dir as int, dt_ms as int, k as int),
        -crate::DISP_LIMIT <= r <= crate::DISP_LIMIT,
{
    let neg: bool = (vel < 0) != (dir < 0);
    let mv: u64 = abs_u64(vel);
    let md: u64 = abs_u64(dir);
    proof {
        assert((mv as int) * (md as int) <= 100_000i64 * crate::DIR_LIMIT) by (nonlinear_arith)
            requires
                0 <= mv <= 100_000,
                0 <= md <= crate::DIR_LIMIT,
        ;
        assert((mv as int) * (md as int) * (dt_ms as int) <= 1_000_000_000_000i128
            * 10_000_000) by (nonlinear_arith)
            requires
                0 <= (mv as int) * (md as int) <= 1_000_000_000_000i128,
                0 <= dt_ms <= 10_000_000u64,
        ;
        assert((mv as int) * (md as int) * (dt_ms as int) * (k as int)
            <= 1_000_000_000_000_0000000i128 * 20) by (nonlinear_arith)
            requires
                0 <= (mv as int) * (md as int) * (dt_ms as int)
                    <= 1_000_000_000_000_0000000i128,
                0 <= k <= 20,
        ;
    }
    let prod: u128 = (mv as u128) * (md as u128) * (dt_ms as u128) * (k as u128);
    let q: u128 = prod / 1_000_000u128;
    let qi: i64 = q as i64;
    proof {
        let v = vel as int;
        let d = dir as int;
        let t = dt_ms as int;
        let kk = k as int;
        let m = (mv as int) * (md as int) * t * kk;
        if neg {
            assert(v * d == -((mv as int) * (md as int))) by (nonlinear_arith)
                requires
                    mv == (if v >= 0 { v } else { -v }),
                    md == (if d >= 0 { d } else { -d }),
                    (v < 0) != (d < 0),
            ;
            assert(v * d * t * kk == -m) by (nonlinear_arith)
                requires
                    v * d == -((mv as int) * (md as int)),
                    m == (mv as int) * (md as int) * t * kk,
            ;
        } else {
            assert(v * d == (mv as int) * (md as int)) by (nonlinear_arith)
                requires
                    mv == (if v >= 0 { v } else { -v }),
                    md == (if d >= 0 { d } else { -d }),
                    !((v < 0) != (d < 0)),
            ;
            assert(v * d * t * kk == m) by (nonlinear_arith)
                requires
                    v * d == (mv as int) * (md as int),
                    m == (mv as int) * (md as int) * t * kk,
            ;
        }
        assert(q == m / 1_000_000);
        assert(m / 1_000_000 <= 200_000_000_000_000int) by (nonlinear_arith)
            requires
                0 <= m <= 1_000_000_000_000_0000000i128 * 20,
        ;
    }
    if neg {
        -qi
    } else {
        qi
    }
}

/// `r` is the floor of the square root of `n`.
pub open spec fn is_sqrt(n: nat, r: nat) -> bool {
    r * r <= n && n < (r + 1) * (r + 1)
}

/// Floor of the square root, as a total spec function.
pub open spec fn sqrt_floor(n: nat) -> nat
    decreases n,
{
    if n == 0 {
        0
    } else {
        let p = sqrt_floor((n - 1) as nat);
        if (p + 1) * (p + 1) <= n {
            p + 1
        } else {
            p
        }
    }
}

/// `sqrt_floor` satisfies the square-root characterization.
pub proof fn lemma_sqrt_floor_is_sqrt(n: nat)
    ensures
        is_sqrt(n, sqrt_floor(n)),
    decreases n,
{
    if n > 0 {
        lemma_sqrt_floor_is_sqrt((n - 1) as nat);
        let p = sqrt_floor((n - 1) as nat);
        assert(p * p <= n - 1 && n - 1 < (p + 1) * (p + 1));
        if (p + 1) * (p + 1) <= n {
            assert(sqrt_floor(n) == p + 1);
            assert(n == (p + 1) * (p + 1));
            assert((p + 1) * (p + 1) < (p + 2) * (p + 2)) by (nonlinear_arith);
            assert(is_sqrt(n, (p + 1) as nat));
        } else {
            assert(sqrt_floor(n) == p);
            assert(is_sqrt(n, p));
        }
    } else {
        assert(sqrt_floor(0) == 0);
        assert(is_sqrt(0, 0)) by (nonlinear_arith);
    }
}

/// The square-root characterization has a unique solution.
pub proof fn lemma_sqrt_unique(n: nat, r: nat)
    requires
        is_sqrt(n, r),
    ensures
        r == sqrt_floor(n),
{
    lemma_sqrt_floor_is_sqrt(n);
    let s = sqrt_floor(n);
    if r < s {
        assert((r + 1) * (r + 1) <= s * s) by (nonlinear_arith)
            requires
                r + 1 <= s,
        ;
    } else if s < r {
        assert((s + 1) * (s + 1) <= r * r) by (nonlinear_arith)
            requires
                s + 1 <= r,
        ;
    }
}

/// Floor of the square root of a machine integer, by binary search.
pub fn isqrt(n: u64) -> (r: u64)
    ensures
        r == sqrt_floor(n as nat),
        r < 0x1_0000_0000u64,
{
    let mut lo: u64 = 0;
    let mut hi: u64 = 0x1_0000_0000;
    proof {
        assert((hi as int) * (hi as int) > n as int) by (nonlinear_arith)
            requires
                hi == 0x1_0000_0000u64,
                n <= u64::MAX,
        ;
    }
    while lo + 1 < hi
        invariant
            lo < hi <= 0x1_0000_0000u64,
            (lo as int) * (lo as int) <= n as int,
            (hi as int) * (hi as int) > n as int,
        decreases hi - lo,
    {
        let mid: u64 = lo + (hi - lo) / 2;
        proof {
            assert((mid as int) * (mid as int) <= 0x1_0000_0000i128 * 0x1_0000_0000)
                by (nonlinear_arith)
                requires
                    0 <= mid <= 0x1_0000_0000u64,
            ;
        }
        let sq: u128 = (mid as u128) * (mid as u128);
        if sq <= n as u128 {
            lo = mid;
        } else {
            hi = mid;
        }
    }
    proof {
        assert(hi == lo + 1);
        lemma_sqrt_unique(n as nat, lo as nat);
    }
    lo
}

} // verus!
