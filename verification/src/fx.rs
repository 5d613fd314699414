//! Fixed-point scalars and the few arithmetic helpers the engine rests on.
//!
//! A scalar is an `i64` holding `SCALE`-ths of a world unit. Division in
//! the engine always truncates toward zero, as [`div_t`] states; the
//! executable `/` on signed integers has exactly that meaning.

use vstd::prelude::*;

verus! {

/// Fixed-point scale: `SCALE` sub-units make one world unit.
pub const SCALE: i64 = 1000;

/// Largest coordinate magnitude the engine works on. Positions beyond
/// this are outside the supported world; callers keep agents within it.
pub const POS_LIMIT: i64 = 0x4000_0000_0000;

/// Largest magnitude of any configuration tunable (speeds, forces,
/// distances, weights, the mass). Keeps every product of two tunables and
/// a coordinate inside 128-bit intermediates.
pub const CFG_MAX: i64 = 0x10_0000;

/// Largest agent count one flocking scan may read.
pub const COUNT_MAX: usize = 0x10_0000;

/// `x` pulled into `[lo, hi]`.
pub open spec fn spec_clamp(x: int, lo: int, hi: int) -> int {
    if x < lo {
        lo
    } else if x > hi {
        hi
    } else {
        x
    }
}

/// Magnitude of `x`.
pub open spec fn spec_abs(x: int) -> int {
    if x < 0 {
        -x
    } else {
        x
    }
}

/// Division truncating toward zero — what `/` does on the engine's
/// signed scalars (defined here for a positive divisor, the only kind the
/// engine divides by).
pub open spec fn div_t(a: int, b: int) -> int {
    if a >= 0 {
        a / b
    } else {
        -((-a) / b)
    }
}

/// Clamp `x` into `[lo, hi]`.
pub fn clamp_i64(x: i64, lo: i64, hi: i64) -> (r: i64)
    requires
        lo <= hi,
    ensures
        r == spec_clamp(x as int, lo as int, hi as int),
{
    if x < lo {
        lo
    } else if x > hi {
        hi
    } else {
        x
    }
}

/// Magnitude of `x`.
pub fn abs_i64(x: i64) -> (r: i64)
    requires
        x > i64::MIN,
    ensures
        r == spec_abs(x as int),
{
    if x < 0 {
        -x
    } else {
        x
    }
}

/// Truncating quotient is never larger in magnitude than the dividend's
/// magnitude divided once; in particular it keeps bounds.
pub proof fn lemma_div_t_bound(a: int, b: int, m: int)
    by (nonlinear_arith)
    requires
        b >= 1,
        spec_abs(a) <= m,
    ensures
        spec_abs(div_t(a, b)) <= m,
        spec_abs(div_t(a, b)) <= spec_abs(a),
{
}

/// A quotient stays under `m` when the dividend stays under `m·b`.
pub proof fn lemma_div_t_le(a: int, b: int, m: int)
    by (nonlinear_arith)
    requires
        b >= 1,
        m >= 0,
        spec_abs(a) <= m * b,
    ensures
        spec_abs(div_t(a, b)) <= m,
{
}

/// A square bounded by another square bounds the root: from `a² ≤ s` and
/// `s < (b+1)²` follows `a ≤ b`, for nonnegative `a`, `b`.
pub proof fn lemma_root_le(a: int, b: int, s: int)
    by (nonlinear_arith)
    requires
        a >= 0,
        b >= 0,
        a * a <= s,
        s < (b + 1) * (b + 1),
    ensures
        a <= b,
{
}

/// The integer square root of `n`: the `r` with `r² ≤ n < (r+1)²`.
pub open spec fn spec_isqrt(n: int) -> int {
    choose|r: int| r >= 0 && #[trigger] (r * r) <= n && n < (r + 1) * (r + 1)
}

/// Any nonnegative `r` with `r² ≤ n < (r+1)²` is the integer square root:
/// the characterization picks exactly one value.
pub proof fn lemma_isqrt_unique(n: int, r: int)
    requires
        r >= 0,
        r * r <= n,
        n < (r + 1) * (r + 1),
    ensures
        spec_isqrt(n) == r,
{
    assert(r >= 0 && r * r <= n && n < (r + 1) * (r + 1));
    let c = choose|q: int| q >= 0 && #[trigger] (q * q) <= n && n < (q + 1) * (q + 1);
    assert(c >= 0 && c * c <= n && n < (c + 1) * (c + 1));
    assert(c == r) by (nonlinear_arith)
        requires
            c >= 0,
            r >= 0,
            c * c <= n,
            n < (c + 1) * (c + 1),
            r * r <= n,
            n < (r + 1) * (r + 1),
    ;
}

/// `a · b / d` with the product taken in 128 bits, truncating toward zero.
pub fn mul_div(a: i64, b: i64, d: i64) -> (r: i64)
    requires
        d >= 1,
        spec_abs(a as int * b as int) <= d as int * i64::MAX as int,
    ensures
        r == div_t(a as int * b as int, d as int),
{
    let p: i128 = (a as i128) * (b as i128);
    let q: i128 = p / (d as i128);
    proof {
        lemma_div_t_le(p as int, d as int, i64::MAX as int);
    }
    q as i64
}

/// Integer square root: the largest `r` with `r² ≤ n`.
pub fn isqrt(n: u128) -> (r: u64)
    requires
        n < 0x1_0000_0000_0000_0000_0000_0000u128,
    ensures
        (r as int) * (r as int) <= n as int,
        (n as int) < (r as int + 1) * (r as int + 1),
        r < 0x1_0000_0000_0000u64,
        r == spec_isqrt(n as int),
{
    let mut lo: u64 = 0;
    let mut hi: u64 = 0x1_0000_0000_0000;
    proof {
        assert(0x1_0000_0000_0000int * 0x1_0000_0000_0000int
            == 0x1_0000_0000_0000_0000_0000_0000int);
    }
    while lo + 1 < hi
        invariant
            lo < hi,
            hi <= 0x1_0000_0000_0000u64,
            (lo as int) * (lo as int) <= n as int,
            (n as int) < (hi as int) * (hi as int),
        decreases hi - lo,
    {
        let mid: u64 = lo + (hi - lo) / 2;
        proof {
            assert((mid as int) * (mid as int) < 0x1_0000_0000_0000_0000_0000_0000_0000_0000int)
                by (nonlinear_arith)
                requires
                    mid < 0x1_0000_0000_0000u64,
            ;
        }
        let sq: u128 = (mid as u128) * (mid as u128);
        if sq <= n {
            lo = mid;
        } else {
            hi = mid;
        }
    }
    proof {
        lemma_isqrt_unique(n as int, lo as int);
    }
    lo
}

} // verus!
