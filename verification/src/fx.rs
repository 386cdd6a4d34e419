//! Saturating Q48.16 fixed-point arithmetic on `i64` bit patterns.
//!
//! A fixed-point quantity of `b` bits stands for the real number
//! `b / 65536`. Every operation saturates at the `i64` range instead of
//! overflowing, so all operations are total; the specification functions
//! state the exact result, saturation included. Division and remainder
//! round toward negative infinity (Euclidean, for positive divisors).

use vstd::prelude::*;
use vstd::arithmetic::div_mod::lemma_fundamental_div_mod;
use vstd::arithmetic::div_mod::lemma_fundamental_div_mod_converse;

verus! {

/// Number of fixed-point bits that stand for one unit.
pub const SCALE: i64 = 65536;

/// Saturate a mathematical integer to the `i64` range.
pub open spec fn sat64(x: int) -> int {
    if x < i64::MIN as int {
        i64::MIN as int
    } else if x > i64::MAX as int {
        i64::MAX as int
    } else {
        x
    }
}

/// Fixed-point sum: `sat64(a + b)`.
pub open spec fn fx_add_spec(a: int, b: int) -> int {
    sat64(a + b)
}

/// Fixed-point difference: `sat64(a - b)`.
pub open spec fn fx_sub_spec(a: int, b: int) -> int {
    sat64(a - b)
}

/// Fixed-point product: the bit product divided by the scale,
/// rounded toward negative infinity, then saturated.
pub open spec fn fx_mul_spec(a: int, b: int) -> int {
    sat64((a * b) / (SCALE as int))
}

/// Fixed-point quotient for a positive divisor: `a` rescaled by the
/// scale and divided by `b`, rounded toward negative infinity, then
/// saturated.
pub open spec fn fx_div_spec(a: int, b: int) -> int
    recommends
        b > 0,
{
    sat64((a * (SCALE as int)) / b)
}

/// Euclidean remainder for a positive divisor: the result lies in
/// `[0, b)`.
pub open spec fn fx_mod_spec(a: int, b: int) -> int
    recommends
        b > 0,
{
    a % b
}

/// Magnitude of an `i64` as a `u64` (total, also at `i64::MIN`).
pub fn abs64(a: i64) -> (r: u64)
    ensures
        a >= 0 ==> r == a,
        a < 0 ==> r == -(a as int),
{
    if a >= 0 {
        a as u64
    } else {
        let m: i128 = -(a as i128);
        m as u64
    }
}

/// Saturating fixed-point addition.
pub fn fx_add(a: i64, b: i64) -> (r: i64)
    ensures
        r == fx_add_spec(a as int, b as int),
{
    let s: i128 = a as i128 + b as i128;
    if s > i64::MAX as i128 {
        i64::MAX
    } else if s < i64::MIN as i128 {
        i64::MIN
    } else {
        s as i64
    }
}

/// Saturating fixed-point subtraction.
pub fn fx_sub(a: i64, b: i64) -> (r: i64)
    ensures
        r == fx_sub_spec(a as int, b as int),
{
    let s: i128 = a as i128 - b as i128;
    if s > i64::MAX as i128 {
        i64::MAX
    } else if s < i64::MIN as i128 {
        i64::MIN
    } else {
        s as i64
    }
}

/// For a nonnegative split `m == q * d + rem` with `0 <= rem < d`, the
/// Euclidean quotient of `-m` by `d` is `-q` when `rem == 0` and
/// `-(q + 1)` otherwise.
proof fn lemma_neg_div(m: int, d: int, q: int, rem: int)
    requires
        d > 0,
        0 <= rem < d,
        m == q * d + rem,
        q >= 0,
    ensures
        rem == 0 ==> (-m) / d == -q,
        rem > 0 ==> (-m) / d == -(q + 1),
{
    if rem == 0 {
        assert(-m == (-q) * d + 0) by (nonlinear_arith)
            requires m == q * d + rem, rem == 0;
        lemma_fundamental_div_mod_converse(-m, d, -q, 0);
    } else {
        assert(-m == (-(q + 1)) * d + (d - rem)) by (nonlinear_arith)
            requires m == q * d + rem;
        lemma_fundamental_div_mod_converse(-m, d, -(q + 1), d - rem);
    }
}

/// The product of two magnitudes equals the magnitude of the product.
proof fn lemma_abs_mul(a: int, b: int, ma: int, mb: int)
    requires
        ma == if a >= 0 { a } else { -a },
        mb == if b >= 0 { b } else { -b },
    ensures
        (a >= 0) == (b >= 0) || a == 0 || b == 0 ==> a * b == ma * mb,
        !((a >= 0) == (b >= 0)) ==> a * b == -(ma * mb),
        ma * mb >= 0,
{
    assert((a >= 0) == (b >= 0) || a == 0 || b == 0 ==> a * b == ma * mb) by (nonlinear_arith)
        requires ma == if a >= 0 { a } else { -a }, mb == if b >= 0 { b } else { -b };
    assert(!((a >= 0) == (b >= 0)) ==> a * b == -(ma * mb)) by (nonlinear_arith)
        requires ma == if a >= 0 { a } else { -a }, mb == if b >= 0 { b } else { -b };
    assert(ma * mb >= 0) by (nonlinear_arith)
        requires ma >= 0, mb >= 0;
}

/// Turn a magnitude `q` with a sign into the saturated `i64` result
/// standing for `q` (positive) or `-q` (negative).
fn signed_sat(q: u128, neg: bool) -> (r: i64)
    ensures
        !neg ==> r == sat64(q as int),
        neg ==> r == sat64(-(q as int)),
{
    if !neg {
        if q > i64::MAX as u128 {
            i64::MAX
        } else {
            q as i64
        }
    } else {
        if q >= 9223372036854775808u128 {
            i64::MIN
        } else {
            -(q as i64)
        }
    }
}

/// Saturating fixed-point multiplication, rounding toward negative
/// infinity.
pub fn fx_mul(a: i64, b: i64) -> (r: i64)
    ensures
        r == fx_mul_spec(a as int, b as int),
{
    let neg: bool = (a < 0) != (b < 0);
    let ma: u128 = abs64(a) as u128;
    let mb: u128 = abs64(b) as u128;
    proof {
        assert(ma * mb <= 0xffffffffffffffffu128 * 0xffffffffffffffffu128) by (nonlinear_arith)
            requires ma <= 0xffffffffffffffffu128, mb <= 0xffffffffffffffffu128;
    }
    let p: u128 = ma * mb;
    let q: u128 = p / 65536;
    let rem: u128 = p % 65536;
    proof {
        lemma_abs_mul(a as int, b as int, ma as int, mb as int);
    }
    if !neg {
        proof {
            assert(a as int * b as int == p);
            assert((a as int * b as int) / (SCALE as int) == q);
        }
        signed_sat(q, false)
    } else {
        proof {
            assert(a as int * b as int == -(p as int));
            lemma_neg_div(p as int, SCALE as int, q as int, rem as int);
        }
        if rem > 0 {
            signed_sat(q + 1, true)
        } else {
            signed_sat(q, true)
        }
    }
}

/// Saturating fixed-point division by a positive divisor, rounding
/// toward negative infinity.
pub fn fx_div(a: i64, b: i64) -> (r: i64)
    requires
        b > 0,
    ensures
        r == fx_div_spec(a as int, b as int),
{
    let neg: bool = a < 0;
    let ma: u128 = abs64(a) as u128;
    proof {
        assert(ma * 65536 <= 0xffffffffffffffffu128 * 65536) by (nonlinear_arith)
            requires ma <= 0xffffffffffffffffu128;
    }
    let t: u128 = ma * 65536;
    let d: u128 = b as u128;
    let q: u128 = t / d;
    let rem: u128 = t % d;
    proof {
        lemma_abs_mul(a as int, SCALE as int, ma as int, SCALE as int);
    }
    if !neg {
        proof {
            assert(a as int * (SCALE as int) == t);
            assert((a as int * (SCALE as int)) / (b as int) == q);
        }
        signed_sat(q, false)
    } else {
        proof {
            assert(a as int * (SCALE as int) == -(t as int));
            lemma_fundamental_div_mod(t as int, d as int);
            assert(t as int == q as int * (b as int) + rem) by (nonlinear_arith)
                requires
                    t as int == d as int * ((t as int) / (d as int)) + (t as int) % (d as int),
                    d == b,
                    q as int == (t as int) / (d as int),
                    rem as int == (t as int) % (d as int);
            lemma_neg_div(t as int, b as int, q as int, rem as int);
        }
        if rem > 0 {
            signed_sat(q + 1, true)
        } else {
            signed_sat(q, true)
        }
    }
}

/// Euclidean remainder by a positive divisor; the result lies in
/// `[0, b)`.
pub fn fx_mod(a: i64, b: i64) -> (r: i64)
    requires
        b > 0,
    ensures
        r == fx_mod_spec(a as int, b as int),
        0 <= r < b,
{
    let m: u64 = abs64(a);
    let d: u64 = b as u64;
    let rm: u64 = m % d;
    if a >= 0 {
        proof {
            assert(a as int % (b as int) == rm);
        }
        rm as i64
    } else {
        proof {
            lemma_fundamental_div_mod(m as int, d as int);
            assert(m as int == (m / d) as int * (b as int) + rm) by (nonlinear_arith)
                requires
                    m as int == d as int * ((m as int) / (d as int)) + (m as int) % (d as int),
                    d == b,
                    (m / d) as int == (m as int) / (d as int),
                    rm as int == (m as int) % (d as int);
            if rm == 0 {
                assert(a as int == (-((m / d) as int)) * (b as int) + 0) by (nonlinear_arith)
                    requires
                        a as int == -(m as int),
                        m as int == (m / d) as int * (b as int) + rm,
                        rm == 0;
                lemma_fundamental_div_mod_converse(a as int, b as int, -((m / d) as int), 0);
            } else {
                assert(a as int == (-((m / d) as int) - 1) * (b as int) + ((b - rm) as int))
                    by (nonlinear_arith)
                    requires
                        a as int == -(m as int),
                        m as int == (m / d) as int * (b as int) + rm,
                        0 < rm < b;
                lemma_fundamental_div_mod_converse(
                    a as int,
                    b as int,
                    -((m / d) as int) - 1,
                    b as int - rm as int,
                );
            }
        }
        if rm == 0 {
            0
        } else {
            b - (rm as i64)
        }
    }
}

} // verus!
