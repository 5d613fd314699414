//! Two-dimensional fixed-point vectors.
//!
//! Every operation states its result exactly, component by component.
//! `normalize_to` carries the engine's normalize-or-zero rule: the zero
//! vector normalizes to the zero vector, and a normalized result never
//! exceeds the requested magnitude on either axis.

use vstd::prelude::*;

use crate::fx::{
    clamp_i64, div_t, isqrt, lemma_div_t_le, lemma_root_le, mul_div, spec_abs, spec_clamp,
    spec_isqrt, POS_LIMIT,
};

verus! {

/// Largest component magnitude `normalize_to` and `dist_sq` accept; twice
/// the world's coordinate limit, so any difference of positions fits.
pub const NORM_LIMIT: i64 = 0x8000_0000_0000;

/// A world-space vector in fixed-point sub-units.
#[derive(Clone, Copy, PartialEq, Eq, Structural, Debug)]
pub struct Vec2Fx {
    pub x: i64,
    pub y: i64,
}

/// Both components of `v` lie within `[-m, m]`.
pub open spec fn in_box(v: Vec2Fx, m: int) -> bool {
    -m <= v.x <= m && -m <= v.y <= m
}

/// Squared Euclidean length of `v`.
pub open spec fn spec_len_sq(v: Vec2Fx) -> int {
    v.x * v.x + v.y * v.y
}

/// Squared Euclidean distance between `a` and `b`.
pub open spec fn spec_dist_sq(a: Vec2Fx, b: Vec2Fx) -> int {
    (a.x - b.x) * (a.x - b.x) + (a.y - b.y) * (a.y - b.y)
}

/// Integer length of `v`: the integer square root of the squared length.
pub open spec fn spec_len(v: Vec2Fx) -> int {
    spec_isqrt(spec_len_sq(v))
}

/// What `normalize_to` returns, as a pair of components: the zero vector
/// for a zero input, else `v` rescaled so its length is (up to rounding
/// toward zero) `s`.
pub open spec fn spec_normalize_to(v: Vec2Fx, s: int) -> (int, int) {
    let n = spec_len(v);
    if n == 0 {
        (0, 0)
    } else {
        (div_t(v.x * s, n), div_t(v.y * s, n))
    }
}

/// The vector a pair of spec components stands for.
pub open spec fn pair_vec(p: (int, int)) -> Vec2Fx {
    Vec2Fx { x: p.0 as i64, y: p.1 as i64 }
}

impl Vec2Fx {
    /// The vector `(x, y)`.
    pub fn new(x: i64, y: i64) -> (r: Vec2Fx)
        ensures
            r.x == x,
            r.y == y,
    {
        Vec2Fx { x, y }
    }

    /// The zero vector.
    pub fn zero() -> (r: Vec2Fx)
        ensures
            r.x == 0,
            r.y == 0,
    {
        Vec2Fx { x: 0, y: 0 }
    }

    /// Component-wise sum.
    pub fn plus(self, o: Vec2Fx) -> (r: Vec2Fx)
        requires
            i64::MIN <= self.x + o.x <= i64::MAX,
            i64::MIN <= self.y + o.y <= i64::MAX,
        ensures
            r.x == self.x + o.x,
            r.y == self.y + o.y,
    {
        Vec2Fx { x: self.x + o.x, y: self.y + o.y }
    }

    /// Component-wise difference.
    pub fn minus(self, o: Vec2Fx) -> (r: Vec2Fx)
        requires
            i64::MIN <= self.x - o.x <= i64::MAX,
            i64::MIN <= self.y - o.y <= i64::MAX,
        ensures
            r.x == self.x - o.x,
            r.y == self.y - o.y,
    {
        Vec2Fx { x: self.x - o.x, y: self.y - o.y }
    }

    /// The vector turned a quarter turn counterclockwise: `(-y, x)`.
    pub fn perp(self) -> (r: Vec2Fx)
        requires
            self.y > i64::MIN,
        ensures
            r.x == -self.y,
            r.y == self.x,
    {
        Vec2Fx { x: -self.y, y: self.x }
    }

    /// Each component clamped into `[-m, m]`.
    pub fn clamp_sym(self, m: i64) -> (r: Vec2Fx)
        requires
            m >= 0,
        ensures
            r.x == spec_clamp(self.x as int, -m as int, m as int),
            r.y == spec_clamp(self.y as int, -m as int, m as int),
    {
        Vec2Fx { x: clamp_i64(self.x, -m, m), y: clamp_i64(self.y, -m, m) }
    }

    /// Squared Euclidean distance between `self` and `o`.
    pub fn dist_sq(self, o: Vec2Fx) -> (r: u128)
        requires
            in_box(self, POS_LIMIT as int),
            in_box(o, POS_LIMIT as int),
        ensures
            r == spec_dist_sq(self, o),
            r < 0x1_0000_0000_0000_0000_0000_0000u128,
    {
        let dx: i128 = (self.x as i128) - (o.x as i128);
        let dy: i128 = (self.y as i128) - (o.y as i128);
        proof {
            assert(0 <= dx * dx <= 0x4000_0000_0000_0000_0000_0000int
                && 0 <= dy * dy <= 0x4000_0000_0000_0000_0000_0000int) by (nonlinear_arith)
                requires
                    spec_abs(dx as int) <= 0x8000_0000_0000int,
                    spec_abs(dy as int) <= 0x8000_0000_0000int,
            ;
        }
        let s: i128 = dx * dx + dy * dy;
        s as u128
    }

    /// Length of `self`, rounded down to a whole number of sub-units.
    pub fn len_fx(self) -> (r: i64)
        requires
            in_box(self, NORM_LIMIT as int),
        ensures
            r == spec_len(self),
            0 <= r <= 0x1_0000_0000_0000i64,
    {
        proof {
            assert(0 <= self.x as int * self.x as int <= 0x4000_0000_0000_0000_0000_0000int
                && 0 <= self.y as int * self.y as int <= 0x4000_0000_0000_0000_0000_0000int)
                by (nonlinear_arith)
                requires
                    spec_abs(self.x as int) <= 0x8000_0000_0000int,
                    spec_abs(self.y as int) <= 0x8000_0000_0000int,
            ;
        }
        let xx: i128 = (self.x as i128) * (self.x as i128);
        let yy: i128 = (self.y as i128) * (self.y as i128);
        let n: u64 = isqrt((xx + yy) as u128);
        n as i64
    }

    /// `self` rescaled to length `s` (truncating), or the zero vector if
    /// `self` is zero. Neither result component exceeds `s` in magnitude.
    pub fn normalize_to(self, s: i64) -> (r: Vec2Fx)
        requires
            in_box(self, NORM_LIMIT as int),
            0 <= s,
        ensures
            r.x == spec_normalize_to(self, s as int).0,
            r.y == spec_normalize_to(self, s as int).1,
            spec_abs(r.x as int) <= s,
            spec_abs(r.y as int) <= s,
    {
        let n: i64 = self.len_fx();
        if n == 0 {
            proof {
                assert(spec_normalize_to(self, s as int).0 == 0
                    && spec_normalize_to(self, s as int).1 == 0);
            }
            Vec2Fx { x: 0, y: 0 }
        } else {
            proof {
                lemma_normalize_bounds(self, s as int);
            }
            let rx: i64 = mul_div(self.x, s, n);
            let ry: i64 = mul_div(self.y, s, n);
            proof {
                lemma_div_t_le(self.x as int * s as int, n as int, s as int);
                lemma_div_t_le(self.y as int * s as int, n as int, s as int);
            }
            Vec2Fx { x: rx, y: ry }
        }
    }
}

/// Each component's magnitude is at most the vector's integer length, so
/// rescaling by `s / len` keeps products inside the division's budget.
proof fn lemma_normalize_bounds(v: Vec2Fx, s: int)
    requires
        in_box(v, NORM_LIMIT as int),
        0 <= s <= i64::MAX,
        spec_len(v) >= 1,
    ensures
        spec_abs(v.x * s) <= spec_len(v) * s,
        spec_abs(v.y * s) <= spec_len(v) * s,
        spec_len(v) * s <= spec_len(v) * i64::MAX,
{
    let n = spec_len(v);
    let sq = spec_len_sq(v);
    lemma_isqrt_sq(v);
    assert(spec_abs(v.x as int) * spec_abs(v.x as int) <= sq && spec_abs(v.y as int)
        * spec_abs(v.y as int) <= sq) by (nonlinear_arith)
        requires
            sq == v.x as int * v.x as int + v.y as int * v.y as int,
    ;
    lemma_root_le(spec_abs(v.x as int), n, sq);
    lemma_root_le(spec_abs(v.y as int), n, sq);
    assert(spec_abs(v.x * s) <= n * s && spec_abs(v.y * s) <= n * s && n * s <= n * (
    i64::MAX as int)) by (nonlinear_arith)
        requires
            spec_abs(v.x as int) <= n,
            spec_abs(v.y as int) <= n,
            0 <= s <= i64::MAX,
            n >= 1,
    ;
}

/// The defining property of the integer length, restated for a vector.
pub proof fn lemma_isqrt_sq(v: Vec2Fx)
    ensures
        spec_len(v) >= 0,
        spec_len(v) * spec_len(v) <= spec_len_sq(v),
        spec_len_sq(v) < (spec_len(v) + 1) * (spec_len(v) + 1),
{
    let sq = spec_len_sq(v);
    assert(v.x as int * v.x as int >= 0 && v.y as int * v.y as int >= 0) by (nonlinear_arith);
    lemma_isqrt_exists(sq);
    let w = choose|r: int| r >= 0 && #[trigger] (r * r) <= sq && sq < (r + 1) * (r + 1);
    assert(w >= 0 && w * w <= sq && sq < (w + 1) * (w + 1));
}

/// Every nonnegative number has an integer square root.
proof fn lemma_isqrt_exists(n: int)
    requires
        n >= 0,
    ensures
        exists|r: int| r >= 0 && #[trigger] (r * r) <= n && n < (r + 1) * (r + 1),
    decreases n,
{
    if n == 0 {
        assert(0 >= 0 && (0int * 0int) <= n && n < (0int + 1) * (0int + 1));
        assert(exists|r: int| r >= 0 && #[trigger] (r * r) <= n && n < (r + 1) * (r + 1));
    } else {
        lemma_isqrt_exists(n - 1);
        let w = choose|r: int| r >= 0 && #[trigger] (r * r) <= n - 1 && n - 1 < (r + 1) * (r
            + 1);
        if (w + 1) * (w + 1) <= n {
            assert(n < (w + 2) * (w + 2)) by (nonlinear_arith)
                requires
                    w >= 0,
                    n - 1 < (w + 1) * (w + 1),
                    (w + 1) * (w + 1) <= n,
            ;
            assert((w + 1) >= 0 && ((w + 1) * (w + 1)) <= n && n < ((w + 1) + 1) * ((w + 1)
                + 1));
            assert(exists|r: int| r >= 0 && #[trigger] (r * r) <= n && n < (r + 1) * (r + 1));
        } else {
            assert(w >= 0 && (w * w) <= n && n < (w + 1) * (w + 1));
            assert(exists|r: int| r >= 0 && #[trigger] (r * r) <= n && n < (r + 1) * (r + 1));
        }
    }
}

} // verus!
