//! Fixed-point plane geometry: truncating scalar helpers, integer square
//! root, vector normalisation, a rational sine approximation and vector
//! rotation, and the axis-aligned rectangle overlap test that all collision
//! checks share.
//!
//! Lengths are milli-pixels, angles milli-degrees; unit direction vectors
//! carry the scale `VEC_SCALE`.

use vstd::prelude::*;

verus! {

use vstd::arithmetic::div_mod::{
    lemma_div_is_ordered, lemma_div_is_ordered_by_denominator, lemma_div_multiples_vanish,
    lemma_div_pos_is_pos, lemma_fundamental_div_mod_converse_mod,
};

/// Scale of fixed-point unit vectors: a vector of length one has
/// coordinates in `[-VEC_SCALE, VEC_SCALE]`.
pub const VEC_SCALE: i64 = 1000;

/// Half a turn in milli-degrees.
pub const HALF_TURN: i64 = 180_000;

/// A quarter turn in milli-degrees.
pub const QUARTER_TURN: i64 = 90_000;

/// A full turn in milli-degrees.
pub const FULL_TURN: i64 = 360_000;

/// Truncating division (rounds toward zero), the rounding that the
/// simulation uses for every scaled quantity.
pub open spec fn tdiv_spec(a: int, b: int) -> int {
    if a >= 0 {
        a / b
    } else {
        -((-a) / b)
    }
}

/// Clamping a value into a closed interval.
pub open spec fn clamp_spec(v: int, lo: int, hi: int) -> int {
    if v < lo {
        lo
    } else if v > hi {
        hi
    } else {
        v
    }
}

pub fn clamp_i64(v: i64, lo: i64, hi: i64) -> (r: i64)
    requires
        lo <= hi,
    ensures
        r == clamp_spec(v as int, lo as int, hi as int),
        lo <= r <= hi,
{
    if v < lo {
        lo
    } else if v > hi {
        hi
    } else {
        v
    }
}

/// Division of a non-negative value by a positive one.
pub fn div_pos(a: i64, b: i64) -> (r: i64)
    requires
        0 <= a,
        0 < b,
    ensures
        r == a as int / b as int,
        0 <= r <= a,
{
    let q: u64 = (a as u64) / (b as u64);
    proof {
        lemma_div_is_ordered_by_denominator(a as int, 1, b as int);
    }
    q as i64
}

/// Truncating division of a signed value by a positive one.
pub fn tdiv(a: i64, b: i64) -> (r: i64)
    requires
        0 < b,
        i64::MIN < a,
    ensures
        r == tdiv_spec(a as int, b as int),
        0 <= a ==> 0 <= r <= a,
        a < 0 ==> a <= r <= 0,
{
    if a >= 0 {
        div_pos(a, b)
    } else {
        let q = div_pos(-a, b);
        -q
    }
}

/// A truncating quotient is bounded whenever the dividend is bounded by the
/// corresponding multiple of the divisor.
pub proof fn lemma_tdiv_bound(a: int, b: int, c: int)
    requires
        0 < b,
        0 <= c,
        -(c * b) <= a <= c * b,
    ensures
        -c <= tdiv_spec(a, b) <= c,
{
    lemma_div_multiples_vanish(c, b);
    assert(b * c == c * b) by (nonlinear_arith);
    if a >= 0 {
        lemma_div_is_ordered(a, c * b, b);
        lemma_div_pos_is_pos(a, b);
    } else {
        assert(-a <= c * b);
        lemma_div_is_ordered(-a, c * b, b);
        lemma_div_pos_is_pos(-a, b);
    }
}

/// `r` is the integer square root of `n`.
pub open spec fn is_isqrt(n: int, r: int) -> bool {
    0 <= r && r * r <= n && n < (r + 1) * (r + 1)
}

/// The integer square root as a spec value.
pub open spec fn sqrt_floor(n: int) -> int {
    choose|r: int| is_isqrt(n, r)
}

/// Two integer square roots of the same value coincide.
pub proof fn lemma_isqrt_unique(n: int, r1: int, r2: int)
    requires
        is_isqrt(n, r1),
        is_isqrt(n, r2),
    ensures
        r1 == r2,
{
    if r1 < r2 {
        assert((r1 + 1) * (r1 + 1) <= r2 * r2) by (nonlinear_arith)
            requires 0 <= r1, 0 <= r2, r1 < r2;
    }
    if r2 < r1 {
        assert((r2 + 1) * (r2 + 1) <= r1 * r1) by (nonlinear_arith)
            requires 0 <= r1, 0 <= r2, r2 < r1;
    }
}

/// The integer square root dominates every value whose square is below `n`.
pub proof fn lemma_isqrt_ge(n: int, r: int, m: int)
    requires
        is_isqrt(n, r),
        0 <= m,
        m * m <= n,
    ensures
        m <= r,
{
    if r < m {
        assert((r + 1) * (r + 1) <= m * m) by (nonlinear_arith)
            requires 0 <= r, 0 <= m, r < m;
    }
}

/// Largest input `isqrt` accepts; its square root fits well under `i64`.
pub const ISQRT_MAX: i64 = 1_600_000_000_000_000;

/// Integer square root by bisection.
pub fn isqrt(n: i64) -> (r: i64)
    requires
        0 <= n <= ISQRT_MAX,
    ensures
        is_isqrt(n as int, r as int),
        r == sqrt_floor(n as int),
        0 <= r <= 40_000_000,
{
    let mut lo: i64 = 0;
    let mut hi: i64 = 40_000_001;
    assert(40_000_001i64 * 40_000_001i64 > ISQRT_MAX);
    while lo + 1 < hi
        invariant
            0 <= lo < hi <= 40_000_001,
            lo * lo <= n,
            n < hi * hi,
        decreases hi - lo,
    {
        let mid = lo + (hi - lo) / 2;
        assert(lo < mid < hi);
        assert(mid * mid <= 40_000_000 * 40_000_000) by (nonlinear_arith)
            requires 0 <= mid <= 40_000_000;
        if mid * mid <= n {
            lo = mid;
        } else {
            hi = mid;
        }
    }
    proof {
        assert(is_isqrt(n as int, lo as int));
        lemma_isqrt_unique(n as int, lo as int, sqrt_floor(n as int));
    }
    lo
}

/// Horizontal component of the normalised direction, at scale `VEC_SCALE`.
pub open spec fn norm_x(dx: int, dy: int) -> int {
    if dx == 0 && dy == 0 {
        0
    } else {
        tdiv_spec(dx * VEC_SCALE, sqrt_floor(dx * dx + dy * dy))
    }
}

/// Vertical component of the normalised direction, at scale `VEC_SCALE`.
pub open spec fn norm_y(dx: int, dy: int) -> int {
    if dx == 0 && dy == 0 {
        0
    } else {
        tdiv_spec(dy * VEC_SCALE, sqrt_floor(dx * dx + dy * dy))
    }
}

/// Largest coordinate magnitude `normalize_or_zero` accepts.
pub const NORM_MAX: i64 = 20_000_000;

/// Fixed-point counterpart of scaling a vector to length one: the zero
/// vector stays zero, every other vector is scaled so that its longest
/// coordinate magnitude is at most `VEC_SCALE`.
pub fn normalize_or_zero(dx: i64, dy: i64) -> (r: (i64, i64))
    requires
        -NORM_MAX <= dx <= NORM_MAX,
        -NORM_MAX <= dy <= NORM_MAX,
    ensures
        r.0 == norm_x(dx as int, dy as int),
        r.1 == norm_y(dx as int, dy as int),
        -VEC_SCALE <= r.0 <= VEC_SCALE,
        -VEC_SCALE <= r.1 <= VEC_SCALE,
        (dx == 0 && dy == 0) <==> (r.0 == 0 && r.1 == 0),
{
    if dx == 0 && dy == 0 {
        (0, 0)
    } else {
        assert(dx * dx + dy * dy <= ISQRT_MAX && (dx != 0 ==> dx * dx >= 1) && (dy != 0
            ==> dy * dy >= 1) && dx * dx >= 0 && dy * dy >= 0) by (nonlinear_arith)
            requires -NORM_MAX <= dx <= NORM_MAX, -NORM_MAX <= dy <= NORM_MAX, dx != 0 || dy != 0;
        let n = dx * dx + dy * dy;
        let len = isqrt(n);
        proof {
            let big = if dx >= 0 { dx as int } else { -dx as int };
            let bigy = if dy >= 0 { dy as int } else { -dy as int };
            assert(big * big == dx * dx && bigy * bigy == dy * dy) by (nonlinear_arith)
                requires
                    big == (if dx >= 0 { dx as int } else { -dx as int }),
                    bigy == (if dy >= 0 { dy as int } else { -dy as int });
            lemma_isqrt_ge(n as int, len as int, big);
            lemma_isqrt_ge(n as int, len as int, bigy);
            assert(len >= 1);
        }
        let rx = tdiv(dx * VEC_SCALE, len);
        let ry = tdiv(dy * VEC_SCALE, len);
        proof {
            let l = len as int;
            assert(-(VEC_SCALE * l) <= dx * VEC_SCALE <= VEC_SCALE * l) by (nonlinear_arith)
                requires -l <= dx <= l, VEC_SCALE == 1000;
            assert(-(VEC_SCALE * l) <= dy * VEC_SCALE <= VEC_SCALE * l) by (nonlinear_arith)
                requires -l <= dy <= l, VEC_SCALE == 1000;
            lemma_tdiv_bound(dx * VEC_SCALE, l, VEC_SCALE as int);
            lemma_tdiv_bound(dy * VEC_SCALE, l, VEC_SCALE as int);
            if dx != 0 || dy != 0 {
                if rx == 0 && ry == 0 {
                    let big = if dx >= 0 { dx as int } else { -dx as int };
                    let bigy = if dy >= 0 { dy as int } else { -dy as int };
                    assert(big * big + bigy * bigy == n) by (nonlinear_arith)
                        requires big == (if dx >= 0 { dx as int } else { -dx as int }),
                            bigy == (if dy >= 0 { dy as int } else { -dy as int }),
                            n == dx * dx + dy * dy;
                    // one coordinate is nonzero; its scaled magnitude reaches the length
                    assert(l * l <= n);
                    assert((big + bigy) * (big + bigy) >= n) by (nonlinear_arith)
                        requires 0 <= big, 0 <= bigy, n == big * big + bigy * bigy;
                    assert(is_isqrt((big + bigy) * (big + bigy), big + bigy)) by (nonlinear_arith)
                        requires 0 <= big + bigy;
                    lemma_isqrt_ge((big + bigy) * (big + bigy), big + bigy, l);
                    assert(l <= big + bigy);
                    assert(big * VEC_SCALE / l >= 1 || bigy * VEC_SCALE / l >= 1) by {
                        if big >= bigy {
                            assert(2 * big >= l);
                            assert(big * VEC_SCALE >= 1 * l) by (nonlinear_arith)
                                requires 2 * big >= l, VEC_SCALE == 1000, l >= 1;
                            lemma_div_is_ordered(1 * l, big * VEC_SCALE, l);
                            lemma_div_multiples_vanish(1, l);
                        } else {
                            assert(2 * bigy >= l);
                            assert(bigy * VEC_SCALE >= 1 * l) by (nonlinear_arith)
                                requires 2 * bigy >= l, VEC_SCALE == 1000, l >= 1;
                            lemma_div_is_ordered(1 * l, bigy * VEC_SCALE, l);
                            lemma_div_multiples_vanish(1, l);
                        }
                    }
                    assert(false);
                }
            }
        }
        (rx, ry)
    }
}

/// An angle folded into `(-HALF_TURN, HALF_TURN]`, the canonical
/// representative of its turn class.
pub open spec fn wrap_angle_spec(a: int) -> int {
    if a % (FULL_TURN as int) > HALF_TURN {
        a % (FULL_TURN as int) - FULL_TURN
    } else {
        a % (FULL_TURN as int)
    }
}

/// Folds an angle in milli-degrees into `(-HALF_TURN, HALF_TURN]`.
pub fn wrap_angle(a: i64) -> (r: i64)
    requires
        -2_000_000_000 <= a <= 2_000_000_000,
    ensures
        r == wrap_angle_spec(a as int),
        -HALF_TURN < r <= HALF_TURN,
{
    let m: i64 = if a >= 0 {
        ((a as u64) % (FULL_TURN as u64)) as i64
    } else {
        let q = (((-a) as u64) % (FULL_TURN as u64)) as i64;
        if q == 0 {
            0
        } else {
            FULL_TURN - q
        }
    };
    proof {
        if a < 0 {
            let q = (-a) % (FULL_TURN as int);
            if q == 0 {
                lemma_fundamental_div_mod_converse_mod(a as int, FULL_TURN as int,
                    -((-a) / (FULL_TURN as int)), 0);
            } else {
                lemma_fundamental_div_mod_converse_mod(a as int, FULL_TURN as int,
                    -((-a) / (FULL_TURN as int)) - 1, FULL_TURN - q);
            }
        }
        assert(m == a as int % (FULL_TURN as int));
    }
    if m > HALF_TURN {
        m - FULL_TURN
    } else {
        m
    }
}

/// Rational one-sided sine approximation on `[0, HALF_TURN]`, at scale
/// `VEC_SCALE`; exact at 0, a quarter turn and a half turn.
pub open spec fn sin_arc(d: int) -> int {
    4000 * (d * (HALF_TURN - d)) / (40_500_000_000 - d * (HALF_TURN - d))
}

/// Sine of an angle in `[-HALF_TURN, HALF_TURN]` milli-degrees, at scale
/// `VEC_SCALE`.
pub open spec fn sin_milli_spec(d: int) -> int {
    if d >= 0 {
        sin_arc(d)
    } else {
        -sin_arc(-d)
    }
}

/// Cosine of an angle in `[-HALF_TURN, HALF_TURN]` milli-degrees, at scale
/// `VEC_SCALE`.
pub open spec fn cos_milli_spec(d: int) -> int {
    let a = if d >= 0 { d } else { -d };
    if a <= QUARTER_TURN {
        sin_arc(QUARTER_TURN - a)
    } else {
        -sin_arc(a - QUARTER_TURN)
    }
}

/// The one-sided sine stays within `[0, VEC_SCALE]`.
pub proof fn lemma_sin_arc_bounds(d: int)
    requires
        0 <= d <= HALF_TURN,
    ensures
        0 <= sin_arc(d) <= VEC_SCALE,
{
    let p = d * (HALF_TURN - d);
    assert(0 <= p <= 8_100_000_000) by (nonlinear_arith)
        requires 0 <= d <= HALF_TURN, p == d * (HALF_TURN - d), HALF_TURN == 180_000;
    let den = 40_500_000_000 - p;
    lemma_div_pos_is_pos(4000 * p, den);
    assert(4000 * p <= VEC_SCALE * den);
    lemma_div_is_ordered(4000 * p, VEC_SCALE * den, den);
    lemma_div_multiples_vanish(VEC_SCALE as int, den);
}

/// One-sided sine on `[0, HALF_TURN]` milli-degrees.
fn sin_arc_exec(d: i64) -> (r: i64)
    requires
        0 <= d <= HALF_TURN,
    ensures
        r == sin_arc(d as int),
        0 <= r <= VEC_SCALE,
{
    proof {
        assert(0 <= d * (HALF_TURN - d) <= 8_100_000_000) by (nonlinear_arith)
            requires 0 <= d <= HALF_TURN, HALF_TURN == 180_000;
    }
    let p = d * (HALF_TURN - d);
    let r = div_pos(4000 * p, 40_500_000_000 - p);
    proof {
        lemma_sin_arc_bounds(d as int);
    }
    r
}

/// Sine of an angle in `[-HALF_TURN, HALF_TURN]` milli-degrees.
pub fn sin_milli(d: i64) -> (r: i64)
    requires
        -HALF_TURN <= d <= HALF_TURN,
    ensures
        r == sin_milli_spec(d as int),
        -VEC_SCALE <= r <= VEC_SCALE,
{
    if d >= 0 {
        sin_arc_exec(d)
    } else {
        let r = sin_arc_exec(-d);
        -r
    }
}

/// Cosine of an angle in `[-HALF_TURN, HALF_TURN]` milli-degrees.
pub fn cos_milli(d: i64) -> (r: i64)
    requires
        -HALF_TURN <= d <= HALF_TURN,
    ensures
        r == cos_milli_spec(d as int),
        -VEC_SCALE <= r <= VEC_SCALE,
{
    let a = if d >= 0 { d } else { -d };
    if a <= QUARTER_TURN {
        sin_arc_exec(QUARTER_TURN - a)
    } else {
        let r = sin_arc_exec(a - QUARTER_TURN);
        -r
    }
}

/// Horizontal component of a vector turned by `d`; carries one extra
/// factor of `VEC_SCALE`, shed by the normalisation that follows.
pub open spec fn rotate_x(x: int, y: int, d: int) -> int {
    x * cos_milli_spec(d) - y * sin_milli_spec(d)
}

/// Vertical component of a vector turned by `d`, at the same scale.
pub open spec fn rotate_y(x: int, y: int, d: int) -> int {
    x * sin_milli_spec(d) + y * cos_milli_spec(d)
}

/// Largest coordinate magnitude `rotate_vec` accepts.
pub const ROT_MAX: i64 = 2000;

/// Turns the vector `(x, y)` by `d` milli-degrees.  The result is scaled
/// up by `VEC_SCALE` and is meant to be normalised afterwards.
pub fn rotate_vec(x: i64, y: i64, d: i64) -> (r: (i64, i64))
    requires
        -ROT_MAX <= x <= ROT_MAX,
        -ROT_MAX <= y <= ROT_MAX,
        -HALF_TURN <= d <= HALF_TURN,
    ensures
        r.0 == rotate_x(x as int, y as int, d as int),
        r.1 == rotate_y(x as int, y as int, d as int),
        -NORM_MAX <= r.0 <= NORM_MAX,
        -NORM_MAX <= r.1 <= NORM_MAX,
{
    let c = cos_milli(d);
    let s = sin_milli(d);
    proof {
        assert(-2_000_000 <= x * c <= 2_000_000 && -2_000_000 <= y * s <= 2_000_000
            && -2_000_000 <= x * s <= 2_000_000 && -2_000_000 <= y * c <= 2_000_000)
            by (nonlinear_arith)
            requires
                -2000 <= x <= 2000,
                -2000 <= y <= 2000,
                -1000 <= c <= 1000,
                -1000 <= s <= 1000;
    }
    (x * c - y * s, x * s + y * c)
}

/// An axis-aligned rectangle in milli-pixels: corner position and extent.
#[derive(Clone, Copy, PartialEq, Eq, Structural, Debug)]
pub struct Rect {
    pub x: i64,
    pub y: i64,
    pub w: i64,
    pub h: i64,
}

/// Open-interval overlap on both axes, the collision primitive shared by
/// every rectangular interaction.
pub open spec fn rects_overlap(r1: Rect, r2: Rect) -> bool {
    &&& r1.x < r2.x + r2.w
    &&& r1.x + r1.w > r2.x
    &&& r1.y < r2.y + r2.h
    &&& r1.y + r1.h > r2.y
}

/// Coordinate bound under which rectangle arithmetic cannot overflow.
pub const RECT_MAX: i64 = 100_000_000;

/// Whether two rectangles overlap.
pub fn rect_collide(r1: &Rect, r2: &Rect) -> (hit: bool)
    requires
        -RECT_MAX <= r1.x <= RECT_MAX,
        -RECT_MAX <= r1.y <= RECT_MAX,
        -RECT_MAX <= r1.w <= RECT_MAX,
        -RECT_MAX <= r1.h <= RECT_MAX,
        -RECT_MAX <= r2.x <= RECT_MAX,
        -RECT_MAX <= r2.y <= RECT_MAX,
        -RECT_MAX <= r2.w <= RECT_MAX,
        -RECT_MAX <= r2.h <= RECT_MAX,
    ensures
        hit == rects_overlap(*r1, *r2),
{
    r1.x < r2.x + r2.w && r1.x + r1.w > r2.x && r1.y < r2.y + r2.h && r1.y + r1.h > r2.y
}

/// Distance between two points, rounded down to whole milli-pixels.
pub open spec fn dist_spec(x1: int, y1: int, x2: int, y2: int) -> int {
    sqrt_floor((x2 - x1) * (x2 - x1) + (y2 - y1) * (y2 - y1))
}

/// Largest coordinate magnitude `dist` accepts.
pub const DIST_MAX: i64 = 10_000_000;

/// Euclidean distance between two points in milli-pixels, rounded down.
pub fn dist(x1: i64, y1: i64, x2: i64, y2: i64) -> (r: i64)
    requires
        -DIST_MAX <= x1 <= DIST_MAX,
        -DIST_MAX <= y1 <= DIST_MAX,
        -DIST_MAX <= x2 <= DIST_MAX,
        -DIST_MAX <= y2 <= DIST_MAX,
    ensures
        r == dist_spec(x1 as int, y1 as int, x2 as int, y2 as int),
        0 <= r <= 40_000_000,
{
    let dx = x2 - x1;
    let dy = y2 - y1;
    proof {
        assert(0 <= dx * dx + dy * dy <= ISQRT_MAX && dx * dx >= 0 && dy * dy >= 0)
            by (nonlinear_arith)
            requires -20_000_000 <= dx <= 20_000_000, -20_000_000 <= dy <= 20_000_000,
                ISQRT_MAX == 1_600_000_000_000_000;
    }
    isqrt(dx * dx + dy * dy)
}

} // verus!
