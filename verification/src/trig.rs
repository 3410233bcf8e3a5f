//! Fixed-point sine and cosine for the camera basis.
//!
//! Angles are Q47.16 radians. The angle is reduced modulo the fixed-point
//! two-pi and the half period is evaluated with Bhaskara's rational
//! approximation `sin x = 16 x (pi - x) / (5 pi^2 - 4 x (pi - x))`, which the
//! spec functions state literally, so every result is pinned exactly.

use vstd::prelude::*;
use vstd::arithmetic::div_mod::lemma_mod_multiples_vanish;
use crate::fixed::{FX_ONE, fadd, fclamp, fmul, fdiv, fneg, fsub, fx_add, fx_clamp, fx_div,
    fx_mul, fx_neg, fx_sub};

verus! {

/// The fixed-point representation of pi.
pub const FX_PI: i64 = 205887;

/// The fixed-point representation of two pi.
pub const FX_TWO_PI: i64 = 411774;

/// The fixed-point representation of pi / 2.
pub const FX_HALF_PI: i64 = 102944;

/// Bhaskara's sine approximation on `[0, pi]`, stated over fixed-point ops.
pub open spec fn sin_half_period(x: int) -> int {
    let p = fmul(x, fsub(FX_PI as int, x));
    let num = fmul(1048576, p);
    let den = fsub(fmul(fmul(FX_PI as int, FX_PI as int), 327680), fmul(262144, p));
    fdiv(num, den)
}

/// Fixed-point sine: reduce modulo two pi, evaluate the half period,
/// mirror the second half, clamp into `[-1, 1]`.
pub open spec fn fsin(a: int) -> int {
    let r = a % (FX_TWO_PI as int);
    let s = if r <= FX_PI as int {
        sin_half_period(r)
    } else {
        fneg(sin_half_period(r - FX_PI as int))
    };
    fclamp(s, -(FX_ONE as int), FX_ONE as int)
}

/// Fixed-point cosine, as the sine shifted a quarter period.
pub open spec fn fcos(a: int) -> int {
    fsin(fadd(a, FX_HALF_PI as int))
}

/// Reduces an angle into `[0, two pi)`.
fn fx_angle_mod(a: i64) -> (r: i64)
    ensures
        r as int == (a as int) % (FX_TWO_PI as int),
        0 <= r < FX_TWO_PI,
{
    let shifted: i128 = a as i128 + 9223372036854962646i128;
    let m: u128 = (shifted as u128) % 411774;
    proof {
        assert(9223372036854962646 == 411774 * 22399112223829) by (nonlinear_arith);
        lemma_mod_multiples_vanish(22399112223829, a as int, 411774);
    }
    m as i64
}

/// Bhaskara's approximation on the half period.
fn fx_sin_half(x: i64) -> (r: i64)
    requires
        0 <= x <= FX_PI,
    ensures
        r as int == sin_half_period(x as int),
{
    let p = fx_mul(x, fx_sub(FX_PI, x));
    let num = fx_mul(1048576, p);
    let den = fx_sub(fx_mul(fx_mul(FX_PI, FX_PI), 327680), fx_mul(262144, p));
    fx_div(num, den)
}

/// Fixed-point sine.
pub fn fx_sin(a: i64) -> (r: i64)
    ensures
        r as int == fsin(a as int),
        -FX_ONE <= r <= FX_ONE,
{
    let red = fx_angle_mod(a);
    let s = if red <= FX_PI {
        fx_sin_half(red)
    } else {
        fx_neg(fx_sin_half(red - FX_PI))
    };
    fx_clamp(s, -FX_ONE, FX_ONE)
}

/// Fixed-point cosine.
pub fn fx_cos(a: i64) -> (r: i64)
    ensures
        r as int == fcos(a as int),
        -FX_ONE <= r <= FX_ONE,
{
    fx_sin(fx_add(a, FX_HALF_PI))
}

} // verus!
