//! Geometry utilities over Q48.16 fixed-point coordinates: squared
//! distance, true distance (by a verified integer square root), and the
//! quadrant-based angle of the vector between two points.

use vstd::prelude::*;
use vstd::arithmetic::div_mod::lemma_div_pos_is_pos;
use crate::fx::fx_add;
use crate::fx::fx_add_spec;
use crate::fx::fx_mul;
use crate::fx::fx_mul_spec;
use crate::fx::fx_div;
use crate::fx::fx_div_spec;
use crate::fx::fx_sub;
use crate::fx::fx_sub_spec;
use crate::fx::sat64;
use crate::trig::atan_arg_clamp;
use crate::trig::atan_bits;
use crate::trig::atan_fx;
use crate::trig::HALF_PI_BITS;
use crate::trig::PI_BITS;
use crate::trig::THREE_HALF_PI_BITS;

verus! {

/// A 2D point, both coordinates in Q48.16 bits.
pub type Pos = (i64, i64);

/// Squared Euclidean distance between two points, in Q48.16 bits of
/// square units.
pub open spec fn sq_dist_spec(ax: int, ay: int, bx: int, by: int) -> int {
    let dx = fx_sub_spec(ax, bx);
    let dy = fx_sub_spec(ay, by);
    fx_add_spec(fx_mul_spec(dx, dx), fx_mul_spec(dy, dy))
}

/// A fixed-point square is never negative.
proof fn lemma_square_nonneg(d: int)
    ensures
        fx_mul_spec(d, d) >= 0,
{
    assert(d * d >= 0) by (nonlinear_arith);
    lemma_div_pos_is_pos(d * d, 65536);
}

/// Squared Euclidean distance between two points.
pub fn pythag(a: Pos, b: Pos) -> (r: i64)
    ensures
        r == sq_dist_spec(a.0 as int, a.1 as int, b.0 as int, b.1 as int),
        r >= 0,
{
    let dx: i64 = fx_sub(a.0, b.0);
    let dy: i64 = fx_sub(a.1, b.1);
    let sx: i64 = fx_mul(dx, dx);
    let sy: i64 = fx_mul(dy, dy);
    proof {
        lemma_square_nonneg(dx as int);
        lemma_square_nonneg(dy as int);
    }
    fx_add(sx, sy)
}

/// Integer square root: the greatest `r` with `r * r <= n`.
pub fn isqrt(n: u128) -> (r: u128)
    ensures
        r * r <= n,
        n < (r + 1) * (r + 1),
        r <= 0xffffffffffffffffu128,
{
    let mut lo: u128 = 0;
    let mut hi: u128 = 0x10000000000000000;
    proof {
        assert(hi * hi > n) by (nonlinear_arith)
            requires hi == 0x10000000000000000u128, n < 0x100000000000000000000000000000000;
    }
    while lo + 1 < hi
        invariant
            lo < hi,
            hi <= 0x10000000000000000,
            lo * lo <= n,
            hi * hi > n,
        decreases hi - lo,
    {
        let mid: u128 = lo + (hi - lo) / 2;
        proof {
            assert(mid * mid <= 0xffffffffffffffffu128 * 0xffffffffffffffffu128)
                by (nonlinear_arith)
                requires mid <= 0xffffffffffffffffu128;
        }
        if mid * mid <= n {
            lo = mid;
        } else {
            hi = mid;
        }
    }
    proof {
        assert(hi == lo + 1);
    }
    lo
}

/// True Euclidean distance between two points: the integer square root
/// of the squared distance rescaled into Q48.16 bits.
pub fn pythag_sqrt(a: Pos, b: Pos) -> (r: i64)
    ensures
        r >= 0,
        r * r <= sq_dist_spec(a.0 as int, a.1 as int, b.0 as int, b.1 as int) * 65536,
        sq_dist_spec(a.0 as int, a.1 as int, b.0 as int, b.1 as int) * 65536 < (r + 1) * (r + 1),
{
    let sq: i64 = pythag(a, b);
    let n: u128 = (sq as u128) * 65536;
    let root: u128 = isqrt(n);
    proof {
        assert(root < 0x10000000000000) by (nonlinear_arith)
            requires
                root * root <= n,
                n < 0x100000000000000000000000000u128,
                root <= 0xffffffffffffffffu128;
    }
    root as i64
}

/// Magnitude of a fixed-point value, saturated at the `i64` range.
pub open spec fn sat_abs(x: int) -> int {
    if x >= 0 {
        x
    } else {
        sat64(-x)
    }
}

/// Saturating fixed-point magnitude.
pub fn abs_fx(a: i64) -> (r: i64)
    ensures
        r == sat_abs(a as int),
        r >= 0,
{
    if a >= 0 {
        a
    } else if a == i64::MIN {
        i64::MAX
    } else {
        -a
    }
}

/// Angle in radian bits of the vector from `a` to `b`, by quadrant case
/// split: the arc-tangent of the ratio of the coordinate magnitudes,
/// plus an offset of 0, a quarter turn, a half turn, or three quarter
/// turns. Coincident points get angle 0 (the ratio of a zero vector is
/// taken as zero relative to the first axis).
pub open spec fn angle_between_spec(ax: int, ay: int, bx: int, by: int) -> int {
    let dx = fx_sub_spec(bx, ax);
    let dy = fx_sub_spec(by, ay);
    let adx = sat_abs(dx);
    let ady = sat_abs(dy);
    if dx > 0 && dy >= 0 {
        atan_bits(atan_arg_clamp(fx_div_spec(ady, adx)))
    } else if dx <= 0 && dy > 0 {
        fx_add_spec(atan_bits(atan_arg_clamp(fx_div_spec(adx, ady))), HALF_PI_BITS as int)
    } else if dx < 0 && dy <= 0 {
        fx_add_spec(atan_bits(atan_arg_clamp(fx_div_spec(ady, adx))), PI_BITS as int)
    } else if dy < 0 {
        fx_add_spec(atan_bits(atan_arg_clamp(fx_div_spec(adx, ady))), THREE_HALF_PI_BITS as int)
    } else {
        0
    }
}

/// Angle in radian bits of the vector from `a` to `b`.
pub fn angle_between(a: Pos, b: Pos) -> (r: i64)
    ensures
        r == angle_between_spec(a.0 as int, a.1 as int, b.0 as int, b.1 as int),
{
    let dx: i64 = fx_sub(b.0, a.0);
    let dy: i64 = fx_sub(b.1, a.1);
    let adx: i64 = abs_fx(dx);
    let ady: i64 = abs_fx(dy);
    if dx > 0 && dy >= 0 {
        atan_fx(fx_div(ady, adx))
    } else if dx <= 0 && dy > 0 {
        fx_add(atan_fx(fx_div(adx, ady)), HALF_PI_BITS)
    } else if dx < 0 && dy <= 0 {
        fx_add(atan_fx(fx_div(ady, adx)), PI_BITS)
    } else if dy < 0 {
        fx_add(atan_fx(fx_div(adx, ady)), THREE_HALF_PI_BITS)
    } else {
        0
    }
}

} // verus!
