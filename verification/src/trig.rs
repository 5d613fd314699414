//! Fixed-point angles and the trigonometry the engine needs.
//!
//! Angles are in `SCALE`-ths of a radian. Sine and cosine use a quadratic
//! rational approximation on the half turn; the inverse tangent uses a
//! quadratic polynomial on the first octant. Each function's contract
//! pins its result exactly, so every consumer is a deterministic function
//! of its inputs; the approximation never leaves `[-SCALE, SCALE]` for
//! sine and cosine, nor `(-PI_FX, PI_FX]` for the plane angle.

use vstd::prelude::*;

use crate::fx::{abs_i64, div_t, lemma_div_t_le, mul_div, spec_abs, SCALE};
use crate::vec2::NORM_LIMIT;

verus! {

/// A half turn, in fixed-point radians.
pub const PI_FX: i64 = 3141;

/// A full turn, in fixed-point radians.
pub const TWO_PI_FX: i64 = 6282;

/// A quarter turn, in fixed-point radians.
pub const HALF_PI_FX: i64 = 1570;

/// What the sine approximation returns on `[0, PI_FX]`: the rational
/// approximation `16·x·(π−x) / (5·π² − 4·x·(π−x))`, in fixed point.
pub open spec fn spec_sin_half(x: int) -> int {
    let p = x * (PI_FX - x);
    (16 * p * SCALE) / (5 * PI_FX * PI_FX - 4 * p)
}

/// Sine of an angle in `[0, TWO_PI_FX]`: the half-turn approximation,
/// negated on the second half turn.
pub open spec fn spec_sin(x: int) -> int {
    if x <= PI_FX {
        spec_sin_half(x)
    } else {
        -spec_sin_half(x - PI_FX)
    }
}

/// Cosine of an angle in `[0, TWO_PI_FX]`: the sine a quarter turn ahead.
pub open spec fn spec_cos(x: int) -> int {
    if x + HALF_PI_FX <= TWO_PI_FX {
        spec_sin(x + HALF_PI_FX)
    } else {
        spec_sin(x + HALF_PI_FX - TWO_PI_FX)
    }
}

/// An angle displaced by a bounded jitter, wrapped back into
/// `[0, TWO_PI_FX)`.
pub open spec fn spec_wrap(a: int) -> int {
    if a < 0 {
        a + TWO_PI_FX
    } else if a >= TWO_PI_FX {
        a - TWO_PI_FX
    } else {
        a
    }
}

/// What the first-octant inverse tangent returns for a ratio `n/d` in
/// `[0, 1]`: with `z = n·SCALE/d`, the fixed-point value of
/// `z·(π/4) + 0.273·z·(1−z)`.
pub open spec fn spec_atan_frac(n: int, d: int) -> int {
    let z = (n * SCALE) / d;
    (z * 785 * SCALE + 273 * z * (SCALE - z)) / (SCALE * SCALE)
}

/// The plane angle of the vector `(x, y)`, in `(-PI_FX, PI_FX]`; the zero
/// vector has angle zero.
pub open spec fn spec_atan2(y: int, x: int) -> int {
    if x == 0 && y == 0 {
        0
    } else {
        let ax = spec_abs(x);
        let ay = spec_abs(y);
        let base = if ay <= ax {
            spec_atan_frac(ay, ax)
        } else {
            HALF_PI_FX - spec_atan_frac(ax, ay)
        };
        let a = if x >= 0 {
            base
        } else {
            PI_FX - base
        };
        if y >= 0 {
            a
        } else {
            -a
        }
    }
}

/// Sine on the first half turn; nonnegative and never above `SCALE`.
fn sin_half(x: i64) -> (r: i64)
    requires
        0 <= x <= PI_FX,
    ensures
        r == spec_sin_half(x as int),
        0 <= r <= SCALE,
{
    proof {
        assert(0 <= x * (PI_FX - x) && 4 * (x * (PI_FX - x)) <= PI_FX * PI_FX)
            by (nonlinear_arith)
            requires
                0 <= x <= PI_FX,
        ;
    }
    let p: i64 = x * (PI_FX - x);
    let num: i64 = 16 * p * SCALE;
    let den: i64 = 5 * PI_FX * PI_FX - 4 * p;
    let r: i64 = num / den;
    proof {
        assert(num <= SCALE * den) by (nonlinear_arith)
            requires
                num == 16 * p * SCALE,
                den == 5 * PI_FX * PI_FX - 4 * p,
                4 * p <= PI_FX * PI_FX,
                0 <= p,
        ;
        lemma_div_t_le(num as int, den as int, SCALE as int);
        assert(div_t(num as int, den as int) >= 0) by (nonlinear_arith)
            requires
                num >= 0,
                den >= 1,
        ;
    }
    r
}

/// Sine of an angle in `[0, TWO_PI_FX]`, within `[-SCALE, SCALE]`.
pub fn sin_fx(x: i64) -> (r: i64)
    requires
        0 <= x <= TWO_PI_FX,
    ensures
        r == spec_sin(x as int),
        -SCALE <= r <= SCALE,
{
    if x <= PI_FX {
        sin_half(x)
    } else {
        -sin_half(x - PI_FX)
    }
}

/// Cosine of an angle in `[0, TWO_PI_FX]`, within `[-SCALE, SCALE]`.
pub fn cos_fx(x: i64) -> (r: i64)
    requires
        0 <= x <= TWO_PI_FX,
    ensures
        r == spec_cos(x as int),
        -SCALE <= r <= SCALE,
{
    if x + HALF_PI_FX <= TWO_PI_FX {
        sin_fx(x + HALF_PI_FX)
    } else {
        sin_fx(x + HALF_PI_FX - TWO_PI_FX)
    }
}

/// Wrap a jittered angle back into `[0, TWO_PI_FX)`.
pub fn wrap_angle(a: i64, j: i64) -> (r: i64)
    requires
        0 <= a < TWO_PI_FX,
        -TWO_PI_FX <= j <= TWO_PI_FX,
    ensures
        r == spec_wrap(a + j),
        0 <= r < TWO_PI_FX,
{
    let s: i64 = a + j;
    if s < 0 {
        s + TWO_PI_FX
    } else if s >= TWO_PI_FX {
        s - TWO_PI_FX
    } else {
        s
    }
}

/// Inverse tangent of `n/d` on the first octant (`0 ≤ n ≤ d`), in fixed
/// point; between `0` and a fixed-point quarter turn.
fn atan_frac(n: i64, d: i64) -> (r: i64)
    requires
        0 <= n <= d,
        1 <= d,
        d <= NORM_LIMIT,
    ensures
        r == spec_atan_frac(n as int, d as int),
        0 <= r <= 785,
{
    proof {
        assert(spec_abs(n as int * SCALE as int) <= d as int * i64::MAX as int
            && spec_abs(n as int * SCALE as int) <= SCALE as int * d as int)
            by (nonlinear_arith)
            requires
                0 <= n <= d,
                1 <= d <= NORM_LIMIT,
        ;
    }
    let z: i64 = mul_div(n, SCALE, d);
    proof {
        lemma_div_t_le(n as int * SCALE as int, d as int, SCALE as int);
        assert(div_t(n as int * SCALE as int, d as int) >= 0) by (nonlinear_arith)
            requires
                n >= 0,
                d >= 1,
        ;
    }
    proof {
        assert(0 <= 273 * z * (SCALE - z) <= 273000000
            && 0 <= z * 785 * SCALE + 273 * z * (SCALE - z) <= 785 * (SCALE * SCALE))
            by (nonlinear_arith)
            requires
                0 <= z <= SCALE,
        ;
    }
    let num: i64 = z * 785 * SCALE + 273 * z * (SCALE - z);
    let r: i64 = num / (SCALE * SCALE);
    proof {
        lemma_div_t_le(num as int, (SCALE * SCALE) as int, 785);
        assert(div_t(num as int, (SCALE * SCALE) as int) >= 0) by (nonlinear_arith)
            requires
                num >= 0,
        ;
    }
    r
}

/// The plane angle of `(x, y)` in fixed-point radians, measured from the
/// positive `x` axis, counterclockwise; in `(-PI_FX, PI_FX]`, and zero
/// for the zero vector.
pub fn atan2_fx(y: i64, x: i64) -> (r: i64)
    requires
        -NORM_LIMIT <= x <= NORM_LIMIT,
        -NORM_LIMIT <= y <= NORM_LIMIT,
    ensures
        r == spec_atan2(y as int, x as int),
        -PI_FX <= r <= PI_FX,
{
    if x == 0 && y == 0 {
        return 0;
    }
    let ax: i64 = abs_i64(x);
    let ay: i64 = abs_i64(y);
    let base: i64 = if ay <= ax {
        atan_frac(ay, ax)
    } else {
        HALF_PI_FX - atan_frac(ax, ay)
    };
    let a: i64 = if x >= 0 {
        base
    } else {
        PI_FX - base
    };
    if y >= 0 {
        a
    } else {
        -a
    }
}

} // verus!
