//! Q47.16 fixed-point scalars: an `i64` holds `value * 65536`.
//!
//! Every operation is total. Results that would leave the `i64` range
//! saturate at `i64::MIN` / `i64::MAX`, and division rounds toward zero,
//! exactly as the matching spec functions state. All contracts of the
//! renderer are phrased over these spec functions.

use vstd::prelude::*;

verus! {

/// The fixed-point representation of 1.0.
pub const FX_ONE: i64 = 65536;

/// The fixed-point representation of 0.5.
pub const FX_HALF: i64 = 32768;

/// Clamps a mathematical integer into the `i64` range.
pub open spec fn sat64(v: int) -> int {
    if v < i64::MIN {
        i64::MIN as int
    } else if v > i64::MAX {
        i64::MAX as int
    } else {
        v
    }
}

/// Absolute value of a mathematical integer.
pub open spec fn abs_i(v: int) -> int {
    if v < 0 {
        -v
    } else {
        v
    }
}

/// Division rounding toward zero (the rounding of the executable code),
/// defined as 0 when the divisor is 0.
pub open spec fn rtz_div(p: int, q: int) -> int {
    if q == 0 {
        0
    } else {
        let m = abs_i(p) / abs_i(q);
        if (p < 0) != (q < 0) {
            -m
        } else {
            m
        }
    }
}

/// Fixed-point addition.
pub open spec fn fadd(a: int, b: int) -> int {
    sat64(a + b)
}

/// Fixed-point subtraction.
pub open spec fn fsub(a: int, b: int) -> int {
    sat64(a - b)
}

/// Fixed-point negation.
pub open spec fn fneg(a: int) -> int {
    sat64(-a)
}

/// Fixed-point absolute value.
pub open spec fn fabs(a: int) -> int {
    sat64(abs_i(a))
}

/// Fixed-point multiplication: `a * b / 65536`, rounded toward zero.
pub open spec fn fmul(a: int, b: int) -> int {
    sat64(rtz_div(a * b, FX_ONE as int))
}

/// Fixed-point division: `a * 65536 / b`, rounded toward zero; 0 when `b == 0`.
pub open spec fn fdiv(a: int, b: int) -> int {
    if b == 0 {
        0
    } else {
        sat64(rtz_div(a * (FX_ONE as int), b))
    }
}

/// Minimum of two integers.
pub open spec fn fmin(a: int, b: int) -> int {
    if a <= b {
        a
    } else {
        b
    }
}

/// Maximum of two integers.
pub open spec fn fmax(a: int, b: int) -> int {
    if a >= b {
        a
    } else {
        b
    }
}

/// Clamp into `[lo, hi]` (callers keep `lo <= hi`).
pub open spec fn fclamp(v: int, lo: int, hi: int) -> int {
    if v < lo {
        lo
    } else if v > hi {
        hi
    } else {
        v
    }
}

/// The magnitude of `a` as a `u128`.
fn mag_u128(a: i64) -> (m: u128)
    ensures
        m as int == abs_i(a as int),
{
    if a >= 0 {
        a as u128
    } else {
        (-(a as i128)) as u128
    }
}

/// Rebuilds a saturated signed value from a magnitude and a sign.
fn sat_from_mag(m: u128, neg: bool) -> (r: i64)
    ensures
        r as int == sat64(if neg { -(m as int) } else { m as int }),
{
    if neg {
        if m >= 0x8000_0000_0000_0000u128 {
            i64::MIN
        } else {
            -(m as i64)
        }
    } else {
        if m > 0x7fff_ffff_ffff_ffffu128 {
            i64::MAX
        } else {
            m as i64
        }
    }
}

/// Saturates an `i128` into the `i64` range.
fn sat_i128(v: i128) -> (r: i64)
    ensures
        r as int == sat64(v as int),
{
    if v > i64::MAX as i128 {
        i64::MAX
    } else if v < i64::MIN as i128 {
        i64::MIN
    } else {
        v as i64
    }
}

/// Saturating fixed-point addition.
pub fn fx_add(a: i64, b: i64) -> (r: i64)
    ensures
        r as int == fadd(a as int, b as int),
{
    sat_i128(a as i128 + b as i128)
}

/// Saturating fixed-point subtraction.
pub fn fx_sub(a: i64, b: i64) -> (r: i64)
    ensures
        r as int == fsub(a as int, b as int),
{
    sat_i128(a as i128 - b as i128)
}

/// Saturating fixed-point negation.
pub fn fx_neg(a: i64) -> (r: i64)
    ensures
        r as int == fneg(a as int),
{
    sat_i128(-(a as i128))
}

/// Saturating fixed-point absolute value.
pub fn fx_abs(a: i64) -> (r: i64)
    ensures
        r as int == fabs(a as int),
{
    if a >= 0 {
        a
    } else if a == i64::MIN {
        i64::MAX
    } else {
        -a
    }
}

/// Minimum.
pub fn fx_min(a: i64, b: i64) -> (r: i64)
    ensures
        r as int == fmin(a as int, b as int),
{
    if a <= b {
        a
    } else {
        b
    }
}

/// Maximum.
pub fn fx_max(a: i64, b: i64) -> (r: i64)
    ensures
        r as int == fmax(a as int, b as int),
{
    if a >= b {
        a
    } else {
        b
    }
}

/// Clamp into `[lo, hi]`.
pub fn fx_clamp(v: i64, lo: i64, hi: i64) -> (r: i64)
    requires
        lo <= hi,
    ensures
        r as int == fclamp(v as int, lo as int, hi as int),
{
    if v < lo {
        lo
    } else if v > hi {
        hi
    } else {
        v
    }
}

/// Saturating fixed-point multiplication, rounded toward zero.
pub fn fx_mul(a: i64, b: i64) -> (r: i64)
    ensures
        r as int == fmul(a as int, b as int),
{
    let neg: bool = (a < 0) != (b < 0);
    let am: u128 = mag_u128(a);
    let bm: u128 = mag_u128(b);
    proof {
        assert((am as int) * (bm as int) <= 0x8000_0000_0000_0000 * 0x8000_0000_0000_0000)
            by (nonlinear_arith)
            requires
                am <= 0x8000_0000_0000_0000u128,
                bm <= 0x8000_0000_0000_0000u128,
        ;
    }
    let m: u128 = (am * bm) / 65536;
    proof {
        assert(abs_i(a as int * b as int) == abs_i(a as int) * abs_i(b as int))
            by (nonlinear_arith);
        assert(((a as int) * (b as int) < 0) ==> ((a < 0) != (b < 0))) by (nonlinear_arith);
        assert(((a as int) * (b as int) > 0) ==> ((a < 0) == (b < 0))) by (nonlinear_arith);
        assert(m as int == abs_i(a as int * b as int) / 65536);
    }
    sat_from_mag(m, neg)
}

/// `r` is the integer square root of `n`.
pub open spec fn is_sqrt(n: int, r: int) -> bool {
    0 <= r && r * r <= n && n < (r + 1) * (r + 1)
}

pub open spec fn sqrt_rec(n: nat) -> int
    decreases n,
{
    if n == 0 {
        0
    } else {
        let p = sqrt_rec((n - 1) as nat);
        if n < (p + 1) * (p + 1) {
            p
        } else {
            p + 1
        }
    }
}

/// The integer square root (floor) of `n`; 0 for negative `n`.
pub open spec fn sqrt_int(n: int) -> int {
    if n <= 0 {
        0
    } else {
        sqrt_rec(n as nat)
    }
}

proof fn lemma_sqrt_rec(n: nat)
    ensures
        is_sqrt(n as int, sqrt_rec(n)),
    decreases n,
{
    if n == 0 {
        assert(is_sqrt(0, 0));
    } else {
        lemma_sqrt_rec((n - 1) as nat);
        let p = sqrt_rec((n - 1) as nat);
        if n < (p + 1) * (p + 1) {
            assert(is_sqrt(n as int, p));
        } else {
            assert((p + 1) * (p + 1) < (p + 2) * (p + 2)) by (nonlinear_arith)
                requires
                    p >= 0,
            ;
            assert(is_sqrt(n as int, p + 1));
        }
    }
}

/// `sqrt_int(n)` really is the integer square root of `n`.
pub proof fn lemma_sqrt_int(n: int)
    requires
        n >= 0,
    ensures
        is_sqrt(n, sqrt_int(n)),
{
    if n == 0 {
        assert(is_sqrt(0, 0));
    } else {
        lemma_sqrt_rec(n as nat);
    }
}

/// The integer square root is unique.
pub proof fn lemma_sqrt_unique(n: int, r: int)
    requires
        n >= 0,
        is_sqrt(n, r),
    ensures
        r == sqrt_int(n),
{
    lemma_sqrt_int(n);
    let s = sqrt_int(n);
    if r < s {
        assert((r + 1) * (r + 1) <= s * s) by (nonlinear_arith)
            requires
                0 <= r,
                r < s,
        ;
    } else if s < r {
        assert((s + 1) * (s + 1) <= r * r) by (nonlinear_arith)
            requires
                0 <= s,
                s < r,
        ;
    }
}

/// Fixed-point square root: `sqrt(a * 65536)` in raw units, 0 for `a <= 0`.
pub open spec fn fsqrt(a: int) -> int {
    if a <= 0 {
        0
    } else {
        sqrt_int(a * 65536)
    }
}

/// Integer square root by binary search.
fn isqrt_u128(n: u128) -> (r: u128)
    ensures
        is_sqrt(n as int, r as int),
{
    let mut lo: u128 = 0;
    let mut hi: u128 = 0x1_0000_0000_0000_0000u128;
    proof {
        assert(0x1_0000_0000_0000_0000 * 0x1_0000_0000_0000_0000
            == 0x1_0000_0000_0000_0000_0000_0000_0000_0000) by (nonlinear_arith);
    }
    while hi - lo > 1
        invariant
            lo < hi,
            hi <= 0x1_0000_0000_0000_0000u128,
            (lo as int) * (lo as int) <= n as int,
            (n as int) < (hi as int) * (hi as int),
        decreases hi - lo,
    {
        let mid: u128 = lo + (hi - lo) / 2;
        proof {
            assert((mid as int) * (mid as int) < 0x1_0000_0000_0000_0000_0000_0000_0000_0000)
                by (nonlinear_arith)
                requires
                    mid < 0x1_0000_0000_0000_0000u128,
            ;
        }
        if mid * mid <= n {
            lo = mid;
        } else {
            hi = mid;
        }
    }
    lo
}

/// Saturation-free fixed-point square root.
pub fn fx_sqrt(a: i64) -> (r: i64)
    ensures
        r as int == fsqrt(a as int),
        r >= 0,
{
    if a <= 0 {
        return 0;
    }
    let n: u128 = (a as u128) * 65536;
    let s: u128 = isqrt_u128(n);
    proof {
        lemma_sqrt_unique(n as int, s as int);
        assert((s as int) < 0x100_0000_0000) by (nonlinear_arith)
            requires
                0 <= s as int,
                (s as int) * (s as int) <= n as int,
                (n as int) < 0x1_0000_0000_0000_0000_0000,
        ;
    }
    s as i64
}

/// Fixed-point power with a natural exponent.
pub open spec fn fpow(b: int, e: nat) -> int
    decreases e,
{
    if e == 0 {
        FX_ONE as int
    } else {
        fmul(b, fpow(b, (e - 1) as nat))
    }
}

/// Iterated fixed-point multiplication.
pub fn fx_pow(b: i64, e: u32) -> (r: i64)
    ensures
        r as int == fpow(b as int, e as nat),
{
    let mut acc: i64 = FX_ONE;
    let mut i: u32 = 0;
    while i < e
        invariant
            i <= e,
            acc as int == fpow(b as int, i as nat),
        decreases e - i,
    {
        acc = fx_mul(b, acc);
        i = i + 1;
    }
    acc
}

/// Multiplying by the fixed-point 1 is exact for every representable value.
pub proof fn lemma_fmul_one(a: int)
    requires
        i64::MIN <= a <= i64::MAX,
    ensures
        fmul(a, FX_ONE as int) == a,
        fmul(FX_ONE as int, a) == a,
{
    assert(abs_i(a * 65536) == abs_i(a) * 65536) by (nonlinear_arith);
    assert(abs_i(65536 * a) == abs_i(a) * 65536) by (nonlinear_arith);
    assert(abs_i(a) * 65536 / 65536 == abs_i(a)) by (nonlinear_arith);
    assert((a * 65536 < 0) <==> a < 0) by (nonlinear_arith);
    assert((65536 * a < 0) <==> a < 0) by (nonlinear_arith);
}

/// Multiplying by the fixed-point -1 is exact negation for every
/// representable value but `i64::MIN`.
pub proof fn lemma_fmul_neg_one(a: int)
    requires
        i64::MIN < a <= i64::MAX,
    ensures
        fmul(a, -(FX_ONE as int)) == -a,
        fmul(-(FX_ONE as int), a) == -a,
{
    assert(abs_i(a * -65536) == abs_i(a) * 65536) by (nonlinear_arith);
    assert(abs_i(-65536 * a) == abs_i(a) * 65536) by (nonlinear_arith);
    assert(abs_i(a) * 65536 / 65536 == abs_i(a)) by (nonlinear_arith);
    assert((a * -65536 < 0) <==> a > 0) by (nonlinear_arith);
    assert((-65536 * a < 0) <==> a > 0) by (nonlinear_arith);
}

/// Multiplying by zero gives zero.
pub proof fn lemma_fmul_zero(a: int)
    ensures
        fmul(a, 0) == 0,
        fmul(0, a) == 0,
{
    assert(a * 0 == 0) by (nonlinear_arith);
    assert(0 * a == 0) by (nonlinear_arith);
}

/// Products of values in `[-1, 1]` stay in `[-1, 1]`.
pub proof fn lemma_fmul_unit_bounds(a: int, b: int)
    requires
        -(FX_ONE as int) <= a <= FX_ONE as int,
        -(FX_ONE as int) <= b <= FX_ONE as int,
    ensures
        -(FX_ONE as int) <= fmul(a, b) <= FX_ONE as int,
{
    assert(abs_i(a * b) <= 65536 * 65536) by (nonlinear_arith)
        requires
            -65536 <= a <= 65536,
            -65536 <= b <= 65536,
    ;
    assert(abs_i(a * b) / 65536 <= 65536) by (nonlinear_arith)
        requires
            abs_i(a * b) <= 65536 * 65536,
            abs_i(a * b) >= 0,
    ;
}

/// Multiplying by the fixed-point 2 exactly doubles moderate values.
pub proof fn lemma_fmul_double(x: int)
    requires
        -0x2000_0000_0000_0000 <= x <= 0x2000_0000_0000_0000,
    ensures
        fmul(131072, x) == 2 * x,
{
    assert(abs_i(131072 * x) == 131072 * abs_i(x)) by (nonlinear_arith);
    assert(131072 * abs_i(x) / 65536 == 2 * abs_i(x)) by (nonlinear_arith);
    assert((131072 * x < 0) <==> x < 0) by (nonlinear_arith);
}

/// Saturating fixed-point division, rounded toward zero; returns 0 when `b == 0`.
pub fn fx_div(a: i64, b: i64) -> (r: i64)
    ensures
        r as int == fdiv(a as int, b as int),
{
    if b == 0 {
        return 0;
    }
    let neg: bool = (a < 0) != (b < 0);
    let am: u128 = mag_u128(a);
    let bm: u128 = mag_u128(b);
    let m: u128 = (am * 65536) / bm;
    proof {
        assert(abs_i(a as int * 65536) == abs_i(a as int) * 65536) by (nonlinear_arith);
        assert(((a as int) * 65536 < 0) <==> a < 0) by (nonlinear_arith);
        assert(m as int == abs_i(a as int * 65536) / abs_i(b as int));
    }
    sat_from_mag(m, neg)
}

} // verus!
