//! Trigonometry on Q48.16 fixed-point bits, delegated to the `cordic`
//! crate.
//!
//! The values of cosine, sine and arc-tangent are named, not stated: the
//! specification functions `cos_bits`, `sin_bits` and `atan_bits` stand
//! for whatever `cordic` returns on the given bit pattern, which depends
//! on the argument alone. Verified callers first reduce or clamp their
//! argument into the range the wrappers accept, so the calls are total.

use vstd::prelude::*;
use crate::fx::fx_mod;
use crate::fx::fx_mod_spec;

verus! {

/// One half turn, `round(pi * 65536)` bits.
pub const PI_BITS: i64 = 205887;

/// One full turn, `2 * PI_BITS` bits.
pub const TWO_PI_BITS: i64 = 411774;

/// One quarter turn, `round(pi / 2 * 65536)` bits.
pub const HALF_PI_BITS: i64 = 102944;

/// Three quarter turns, `round(3 * pi / 2 * 65536)` bits.
pub const THREE_HALF_PI_BITS: i64 = 308831;

/// Largest magnitude of an argument handed to the arc-tangent.
pub const ATAN_ARG_MAX: i64 = 1099511627776;

/// The Q48.16 bits that `cordic::cos` returns for an angle of `angle`
/// bits.
pub uninterp spec fn cos_bits(angle: int) -> int;

/// The Q48.16 bits that `cordic::sin` returns for an angle of `angle`
/// bits.
pub uninterp spec fn sin_bits(angle: int) -> int;

/// The Q48.16 bits that `cordic::atan` returns for an argument of `v`
/// bits.
pub uninterp spec fn atan_bits(v: int) -> int;

/// Relies on cordic::cos on a Q48.16 value (`fixed::types::I48F16`):
/// the result depends on the angle bits alone. The angle is kept within
/// one turn so the internal argument reduction stays far from overflow.
#[verifier::external_body]
fn cos_raw(angle: i64) -> (r: i64)
    requires
        0 <= angle <= TWO_PI_BITS,
    ensures
        r == cos_bits(angle as int),
{
    cordic::cos(fixed::types::I48F16::from_bits(angle)).to_bits()
}

/// Relies on cordic::sin on a Q48.16 value (`fixed::types::I48F16`):
/// the result depends on the angle bits alone. The angle is kept within
/// one turn so the internal argument reduction stays far from overflow.
#[verifier::external_body]
fn sin_raw(angle: i64) -> (r: i64)
    requires
        0 <= angle <= TWO_PI_BITS,
    ensures
        r == sin_bits(angle as int),
{
    cordic::sin(fixed::types::I48F16::from_bits(angle)).to_bits()
}

/// Relies on cordic::atan on a Q48.16 value (`fixed::types::I48F16`):
/// the result depends on the argument bits alone. The argument magnitude
/// is bounded so the shift-and-add iterations stay far from overflow.
#[verifier::external_body]
fn atan_raw(v: i64) -> (r: i64)
    requires
        -ATAN_ARG_MAX <= v <= ATAN_ARG_MAX,
    ensures
        r == atan_bits(v as int),
{
    cordic::atan(fixed::types::I48F16::from_bits(v)).to_bits()
}

/// Clamp a bit pattern into `[-65536, 65536]`, the range of a unit
/// cosine or sine.
pub open spec fn unit_clamp(x: int) -> int {
    if x < -65536 {
        -65536int
    } else if x > 65536 {
        65536int
    } else {
        x
    }
}

/// An angle reduced into `[0, TWO_PI_BITS)` by the Euclidean remainder.
pub open spec fn reduced(angle: int) -> int {
    fx_mod_spec(angle, TWO_PI_BITS as int)
}

/// Clamp an arc-tangent argument into the range the wrapper accepts.
pub open spec fn atan_arg_clamp(x: int) -> int {
    if x < -ATAN_ARG_MAX {
        -ATAN_ARG_MAX as int
    } else if x > ATAN_ARG_MAX {
        ATAN_ARG_MAX as int
    } else {
        x
    }
}

/// Cosine of an angle of `angle` bits: the angle is reduced into one
/// turn and the result clamped to the unit range.
pub fn cos_angle(angle: i64) -> (r: i64)
    ensures
        r == unit_clamp(cos_bits(reduced(angle as int))),
        -65536 <= r <= 65536,
{
    let red: i64 = fx_mod(angle, TWO_PI_BITS);
    let c: i64 = cos_raw(red);
    if c < -65536 {
        -65536
    } else if c > 65536 {
        65536
    } else {
        c
    }
}

/// Sine of an angle of `angle` bits: the angle is reduced into one turn
/// and the result clamped to the unit range.
pub fn sin_angle(angle: i64) -> (r: i64)
    ensures
        r == unit_clamp(sin_bits(reduced(angle as int))),
        -65536 <= r <= 65536,
{
    let red: i64 = fx_mod(angle, TWO_PI_BITS);
    let s: i64 = sin_raw(red);
    if s < -65536 {
        -65536
    } else if s > 65536 {
        65536
    } else {
        s
    }
}

/// Arc-tangent of a ratio of `v` bits, the argument clamped into the
/// accepted range.
pub fn atan_fx(v: i64) -> (r: i64)
    ensures
        r == atan_bits(atan_arg_clamp(v as int)),
{
    let w: i64 = if v < -ATAN_ARG_MAX {
        -ATAN_ARG_MAX
    } else if v > ATAN_ARG_MAX {
        ATAN_ARG_MAX
    } else {
        v
    };
    atan_raw(w)
}

} // verus!
