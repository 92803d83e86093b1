//! Fixed-point 2D vectors and the integer geometry behind them:
//! magnitude, square roots, and clamping a vector to unit length.

use vstd::prelude::*;

verus! {

/// Fixed-point scale: this many fixed units make 1.0 world units.
pub const SCALE: i64 = 1000;

/// Largest coordinate magnitude (in fixed units) the geometry helpers
/// accept; keeps every intermediate product inside `u64`.
pub const COORD_LIMIT: i64 = 1_000_000_000;

/// A 2D vector in fixed-point world units.
#[derive(Clone, Copy, Debug, PartialEq, Eq, Structural)]
pub struct Vec2 {
    pub x: i64,
    pub y: i64,
}

/// Squared magnitude of a vector, as a mathematical integer.
pub open spec fn mag_sq(v: Vec2) -> int {
    v.x * v.x + v.y * v.y
}

/// Absolute value.
pub open spec fn abs_spec(x: int) -> int {
    if x >= 0 {
        x
    } else {
        -x
    }
}

/// `a * m / d` rounded toward zero, for `m >= 0` and `d > 0`.
pub open spec fn scale_div(a: int, m: int, d: int) -> int {
    if a >= 0 {
        (a * m) / d
    } else {
        -((-a * m) / d)
    }
}

/// Integer square root, rounded down. Defined by counting up, which
/// makes inductive proofs direct.
pub open spec fn sqrt_floor(n: int) -> int
    decreases n,
{
    if n <= 0 {
        0
    } else {
        let s = sqrt_floor(n - 1);
        if (s + 1) * (s + 1) <= n {
            s + 1
        } else {
            s
        }
    }
}

/// Integer square root, rounded up.
pub open spec fn sqrt_ceil(n: int) -> int {
    let s = sqrt_floor(n);
    if s * s == n {
        s
    } else {
        s + 1
    }
}

/// `sqrt_floor(n)` is the unique `r >= 0` with `r * r <= n < (r + 1) * (r + 1)`.
pub proof fn lemma_sqrt_floor_bounds(n: int)
    requires
        n >= 0,
    ensures
        0 <= sqrt_floor(n),
        sqrt_floor(n) * sqrt_floor(n) <= n,
        n < (sqrt_floor(n) + 1) * (sqrt_floor(n) + 1),
    decreases n,
{
    if n > 0 {
        lemma_sqrt_floor_bounds(n - 1);
        let s = sqrt_floor(n - 1);
        if (s + 1) * (s + 1) <= n {
            assert((s + 1 + 1) * (s + 1 + 1) > n) by (nonlinear_arith)
                requires
                    s >= 0,
                    n - 1 < (s + 1) * (s + 1),
                    (s + 1) * (s + 1) <= n,
            {}
        }
    }
}

/// Two integers that both satisfy the square-root bounds for `n` are equal.
pub proof fn lemma_sqrt_unique(n: int, a: int, b: int)
    by (nonlinear_arith)
    requires
        0 <= a,
        0 <= b,
        a * a <= n,
        n < (a + 1) * (a + 1),
        b * b <= n,
        n < (b + 1) * (b + 1),
    ensures
        a == b,
{
}

/// `sqrt_ceil(n)` is the least `c` with `c * c >= n`.
pub proof fn lemma_sqrt_ceil_bounds(n: int)
    requires
        n >= 1,
    ensures
        1 <= sqrt_ceil(n),
        sqrt_ceil(n) * sqrt_ceil(n) >= n,
        (sqrt_ceil(n) - 1) * (sqrt_ceil(n) - 1) < n,
{
    lemma_sqrt_floor_bounds(n);
    let s = sqrt_floor(n);
    if s * s == n {
        assert(s >= 1) by (nonlinear_arith)
            requires
                s >= 0,
                s * s == n,
                n >= 1,
            {}
        assert((s - 1) * (s - 1) < s * s) by (nonlinear_arith)
            requires
                s >= 1,
            {}
    } else {
        assert(s * s < n);
    }
}

/// For `0 <= a` and `0 < d`, the quotient `a / d` is nonnegative and
/// satisfies `(a / d) * d <= a < (a / d + 1) * d`.
pub proof fn lemma_div_bounds(a: int, d: int)
    requires
        0 <= a,
        0 < d,
    ensures
        0 <= a / d,
        (a / d) * d <= a,
        a < (a / d + 1) * d,
{
    vstd::arithmetic::div_mod::lemma_fundamental_div_mod(a, d);
    vstd::arithmetic::div_mod::lemma_mod_bound(a, d);
    vstd::arithmetic::div_mod::lemma_div_pos_is_pos(a, d);
    assert((a / d) * d == d * (a / d)) by (nonlinear_arith) {}
    assert((a / d + 1) * d == d * (a / d) + d) by (nonlinear_arith) {}
}

/// Scaling nonnegative components `ax`, `ay` by `SCALE / l`, where
/// `l * l` bounds the squared magnitude, yields a vector of squared
/// magnitude at most `SCALE * SCALE`.
pub proof fn lemma_scaled_mag(ax: int, ay: int, l: int, qx: int, qy: int)
    requires
        0 <= ax,
        0 <= ay,
        0 < l,
        ax * ax + ay * ay <= l * l,
        qx == (ax * SCALE) / l,
        qy == (ay * SCALE) / l,
    ensures
        0 <= qx,
        0 <= qy,
        qx * qx + qy * qy <= SCALE * SCALE,
{
    lemma_div_bounds(ax * SCALE, l);
    lemma_div_bounds(ay * SCALE, l);
    assert(qx * qx * (l * l) <= (ax * ax) * (SCALE * SCALE)) by (nonlinear_arith)
        requires
            0 <= qx,
            0 < l,
            qx * l <= ax * SCALE,
            0 <= ax * SCALE,
    {}
    assert(qy * qy * (l * l) <= (ay * ay) * (SCALE * SCALE)) by (nonlinear_arith)
        requires
            0 <= qy,
            0 < l,
            qy * l <= ay * SCALE,
            0 <= ay * SCALE,
    {}
    assert((qx * qx + qy * qy) * (l * l) <= (l * l) * (SCALE * SCALE)) by (nonlinear_arith)
        requires
            qx * qx * (l * l) <= (ax * ax) * (SCALE * SCALE),
            qy * qy * (l * l) <= (ay * ay) * (SCALE * SCALE),
            ax * ax + ay * ay <= l * l,
    {}
    assert(qx * qx + qy * qy <= SCALE * SCALE) by (nonlinear_arith)
        requires
            (qx * qx + qy * qy) * (l * l) <= (l * l) * (SCALE * SCALE),
            0 < l,
    {}
}

/// A vector of magnitude at most 1.0 has components of at most unit
/// size.
pub proof fn lemma_mag_component_bound(v: Vec2)
    requires
        mag_sq(v) <= SCALE * SCALE,
    ensures
        abs_spec(v.x as int) <= SCALE,
        abs_spec(v.y as int) <= SCALE,
{
    assert(-SCALE <= v.x <= SCALE && -SCALE <= v.y <= SCALE) by (nonlinear_arith)
        requires
            v.x * v.x + v.y * v.y <= SCALE * SCALE,
    {}
}

/// Absolute value of an `i64` that is not `i64::MIN`, as a `u64`.
pub fn abs_u64(x: i64) -> (r: u64)
    requires
        x > i64::MIN,
    ensures
        r == abs_spec(x as int),
{
    if x >= 0 {
        x as u64
    } else {
        (-x) as u64
    }
}

/// Integer square root of a `u64`, rounded down.
pub fn isqrt(n: u64) -> (r: u64)
    ensures
        r == sqrt_floor(n as int),
        r * r <= n,
        n < (r + 1) * (r + 1),
        r <= 4_294_967_295,
{
    let mut lo: u64 = 0;
    let mut hi: u64 = 4_294_967_295;
    proof {
        assert((hi + 1) * (hi + 1) > n as int) by (nonlinear_arith)
            requires
                hi == 4_294_967_295u64,
                n <= u64::MAX,
            {}
    }
    while lo < hi
        invariant
            lo <= hi,
            hi <= 4_294_967_295,
            lo * lo <= n,
            n < (hi + 1) * (hi + 1),
        decreases hi - lo,
    {
        let mid: u64 = lo + (hi - lo + 1) / 2;
        proof {
            assert((mid as u128) * (mid as u128) < 0x10000000000000000u128) by (nonlinear_arith)
                requires
                    mid <= 4_294_967_295u64,
                {}
        }
        if (mid as u128) * (mid as u128) <= n as u128 {
            lo = mid;
        } else {
            hi = mid - 1;
        }
    }
    proof {
        lemma_sqrt_floor_bounds(n as int);
        lemma_sqrt_unique(n as int, lo as int, sqrt_floor(n as int));
    }
    lo
}

/// What clamping a vector to unit length returns: the vector itself if
/// its magnitude is at most 1.0, else each component scaled by
/// `SCALE / l` where `l` is the magnitude rounded up.
pub open spec fn clamp_spec(v: Vec2) -> Vec2 {
    if mag_sq(v) <= SCALE * SCALE {
        v
    } else {
        let l = sqrt_ceil(mag_sq(v));
        Vec2 {
            x: scale_div(v.x as int, SCALE as int, l) as i64,
            y: scale_div(v.y as int, SCALE as int, l) as i64,
        }
    }
}

/// Shortens a vector to magnitude at most 1.0 world units, keeping its
/// direction; a vector already at most that long is returned unchanged.
pub fn clamp_length_max(v: Vec2) -> (r: Vec2)
    requires
        abs_spec(v.x as int) <= COORD_LIMIT,
        abs_spec(v.y as int) <= COORD_LIMIT,
    ensures
        r == clamp_spec(v),
        mag_sq(r) <= SCALE * SCALE,
        mag_sq(v) <= SCALE * SCALE ==> r == v,
{
    let ax = abs_u64(v.x);
    let ay = abs_u64(v.y);
    proof {
        assert(ax * ax == v.x * v.x && ay * ay == v.y * v.y) by (nonlinear_arith)
            requires
                ax == abs_spec(v.x as int),
                ay == abs_spec(v.y as int),
        {}
        assert(ax * ax <= COORD_LIMIT * COORD_LIMIT && ay * ay <= COORD_LIMIT * COORD_LIMIT)
            by (nonlinear_arith)
            requires
                0 <= ax <= COORD_LIMIT,
                0 <= ay <= COORD_LIMIT,
        {}
    }
    let n: u64 = ax * ax + ay * ay;
    let limit: u64 = (SCALE as u64) * (SCALE as u64);
    if n <= limit {
        v
    } else {
        let s = isqrt(n);
        let l: u64 = if s * s < n {
            s + 1
        } else {
            s
        };
        proof {
            assert(l == sqrt_ceil(n as int));
            lemma_sqrt_ceil_bounds(n as int);
        }
        let qx: u64 = ax * (SCALE as u64) / l;
        let qy: u64 = ay * (SCALE as u64) / l;
        proof {
            lemma_scaled_mag(ax as int, ay as int, l as int, qx as int, qy as int);
            assert(qx <= ax * SCALE && qy <= ay * SCALE) by {
                lemma_div_bounds(ax * SCALE, l as int);
                lemma_div_bounds(ay * SCALE, l as int);
                assert(qx * 1 <= qx * (l as int) && qy * 1 <= qy * (l as int)) by (nonlinear_arith)
                    requires
                        0 <= qx,
                        0 <= qy,
                        1 <= l,
                {}
            }
        }
        let rx: i64 = if v.x < 0 {
            -(qx as i64)
        } else {
            qx as i64
        };
        let ry: i64 = if v.y < 0 {
            -(qy as i64)
        } else {
            qy as i64
        };
        let r = Vec2 { x: rx, y: ry };
        proof {
            assert(mag_sq(r) == qx * qx + qy * qy) by (nonlinear_arith)
                requires
                    rx == qx || rx == -(qx as int),
                    ry == qy || ry == -(qy as int),
                    mag_sq(r) == rx * rx + ry * ry,
            {}
        }
        r
    }
}

} // verus!
