//! Fixed-point 3-vectors and their mathematical model.
//!
//! `Fx3` is the executable vector of Q47.16 scalars; `V3` is its view, a
//! vector of mathematical integers. Every operation mirrors a spec function
//! over `V3`, so vector contracts compose exactly.

use vstd::prelude::*;
use crate::fixed::{FX_ONE, fadd, fclamp, fdiv, fmul, fneg, fsqrt, fsub, fx_add, fx_clamp,
    fx_div, fx_mul, fx_neg, fx_sqrt, fx_sub};

verus! {

/// The mathematical model of a fixed-point vector.
pub struct V3 {
    pub x: int,
    pub y: int,
    pub z: int,
}

/// An executable vector of three fixed-point scalars.
#[derive(Clone, Copy, Debug, PartialEq, Eq, Structural)]
pub struct Fx3 {
    pub x: i64,
    pub y: i64,
    pub z: i64,
}

impl View for Fx3 {
    type V = V3;

    open spec fn view(&self) -> V3 {
        V3 { x: self.x as int, y: self.y as int, z: self.z as int }
    }
}

/// Componentwise saturating addition.
pub open spec fn vadd(a: V3, b: V3) -> V3 {
    V3 { x: fadd(a.x, b.x), y: fadd(a.y, b.y), z: fadd(a.z, b.z) }
}

/// Componentwise saturating subtraction.
pub open spec fn vsub(a: V3, b: V3) -> V3 {
    V3 { x: fsub(a.x, b.x), y: fsub(a.y, b.y), z: fsub(a.z, b.z) }
}

/// Componentwise negation.
pub open spec fn vneg(a: V3) -> V3 {
    V3 { x: fneg(a.x), y: fneg(a.y), z: fneg(a.z) }
}

/// Scaling by a fixed-point scalar.
pub open spec fn vscale(a: V3, s: int) -> V3 {
    V3 { x: fmul(a.x, s), y: fmul(a.y, s), z: fmul(a.z, s) }
}

/// Componentwise product; colors are modulated with this.
pub open spec fn vmulc(a: V3, b: V3) -> V3 {
    V3 { x: fmul(a.x, b.x), y: fmul(a.y, b.y), z: fmul(a.z, b.z) }
}

/// Dot product.
pub open spec fn vdot(a: V3, b: V3) -> int {
    fadd(fadd(fmul(a.x, b.x), fmul(a.y, b.y)), fmul(a.z, b.z))
}

/// Cross product.
pub open spec fn vcross(a: V3, b: V3) -> V3 {
    V3 {
        x: fsub(fmul(a.y, b.z), fmul(a.z, b.y)),
        y: fsub(fmul(a.z, b.x), fmul(a.x, b.z)),
        z: fsub(fmul(a.x, b.y), fmul(a.y, b.x)),
    }
}

/// Euclidean length.
pub open spec fn vlength(a: V3) -> int {
    fsqrt(vdot(a, a))
}

/// Normalization; the zero vector stays zero.
pub open spec fn vnormalize(a: V3) -> V3 {
    let l = vlength(a);
    if l == 0 {
        V3 { x: 0, y: 0, z: 0 }
    } else {
        V3 { x: fdiv(a.x, l), y: fdiv(a.y, l), z: fdiv(a.z, l) }
    }
}

/// Componentwise clamp into `[0, 1]`.
pub open spec fn vclamp01(a: V3) -> V3 {
    V3 {
        x: fclamp(a.x, 0, FX_ONE as int),
        y: fclamp(a.y, 0, FX_ONE as int),
        z: fclamp(a.z, 0, FX_ONE as int),
    }
}

/// Reflection of `i` about the unit normal `n`: `i - n * (2 * dot(i, n))`.
pub open spec fn vreflect(i: V3, n: V3) -> V3 {
    vsub(i, vscale(n, fmul(131072, vdot(i, n))))
}

/// All components lie in `[0, 1]`.
pub open spec fn v_in_unit_range(a: V3) -> bool {
    0 <= a.x <= FX_ONE as int && 0 <= a.y <= FX_ONE as int && 0 <= a.z <= FX_ONE as int
}

/// Vector addition.
pub fn v3_add(a: Fx3, b: Fx3) -> (r: Fx3)
    ensures
        r@ == vadd(a@, b@),
{
    Fx3 { x: fx_add(a.x, b.x), y: fx_add(a.y, b.y), z: fx_add(a.z, b.z) }
}

/// Vector subtraction.
pub fn v3_sub(a: Fx3, b: Fx3) -> (r: Fx3)
    ensures
        r@ == vsub(a@, b@),
{
    Fx3 { x: fx_sub(a.x, b.x), y: fx_sub(a.y, b.y), z: fx_sub(a.z, b.z) }
}

/// Vector negation.
pub fn v3_neg(a: Fx3) -> (r: Fx3)
    ensures
        r@ == vneg(a@),
{
    Fx3 { x: fx_neg(a.x), y: fx_neg(a.y), z: fx_neg(a.z) }
}

/// Scaling by a fixed-point scalar.
pub fn v3_scale(a: Fx3, s: i64) -> (r: Fx3)
    ensures
        r@ == vscale(a@, s as int),
{
    Fx3 { x: fx_mul(a.x, s), y: fx_mul(a.y, s), z: fx_mul(a.z, s) }
}

/// Componentwise product.
pub fn v3_mulc(a: Fx3, b: Fx3) -> (r: Fx3)
    ensures
        r@ == vmulc(a@, b@),
{
    Fx3 { x: fx_mul(a.x, b.x), y: fx_mul(a.y, b.y), z: fx_mul(a.z, b.z) }
}

/// Dot product.
pub fn v3_dot(a: Fx3, b: Fx3) -> (r: i64)
    ensures
        r as int == vdot(a@, b@),
{
    fx_add(fx_add(fx_mul(a.x, b.x), fx_mul(a.y, b.y)), fx_mul(a.z, b.z))
}

/// Cross product.
pub fn v3_cross(a: Fx3, b: Fx3) -> (r: Fx3)
    ensures
        r@ == vcross(a@, b@),
{
    Fx3 {
        x: fx_sub(fx_mul(a.y, b.z), fx_mul(a.z, b.y)),
        y: fx_sub(fx_mul(a.z, b.x), fx_mul(a.x, b.z)),
        z: fx_sub(fx_mul(a.x, b.y), fx_mul(a.y, b.x)),
    }
}

/// Euclidean length.
pub fn v3_length(a: Fx3) -> (r: i64)
    ensures
        r as int == vlength(a@),
        r >= 0,
{
    fx_sqrt(v3_dot(a, a))
}

/// Normalization; the zero vector stays zero.
pub fn v3_normalize(a: Fx3) -> (r: Fx3)
    ensures
        r@ == vnormalize(a@),
{
    let l = v3_length(a);
    if l == 0 {
        Fx3 { x: 0, y: 0, z: 0 }
    } else {
        Fx3 { x: fx_div(a.x, l), y: fx_div(a.y, l), z: fx_div(a.z, l) }
    }
}

/// Componentwise clamp into `[0, 1]`.
pub fn v3_clamp01(a: Fx3) -> (r: Fx3)
    ensures
        r@ == vclamp01(a@),
        v_in_unit_range(r@),
{
    Fx3 {
        x: fx_clamp(a.x, 0, FX_ONE),
        y: fx_clamp(a.y, 0, FX_ONE),
        z: fx_clamp(a.z, 0, FX_ONE),
    }
}

/// Reflection of `i` about the unit normal `n`.
pub fn v3_reflect(i: Fx3, n: Fx3) -> (r: Fx3)
    ensures
        r@ == vreflect(i@, n@),
{
    v3_sub(i, v3_scale(n, fx_mul(131072, v3_dot(i, n))))
}

} // verus!
