//! Exact behavior of the fixed-point scalar layer.

use raytracing::fixed::{
    fx_abs, fx_add, fx_clamp, fx_div, fx_max, fx_min, fx_mul, fx_neg, fx_pow, fx_sqrt, fx_sub,
    FX_HALF, FX_ONE,
};
use raytracing::trig::{fx_cos, fx_sin, FX_HALF_PI, FX_PI};

#[test]
fn multiply_one_is_identity() {
    assert_eq!(fx_mul(FX_ONE, FX_ONE), FX_ONE);
    assert_eq!(fx_mul(12345, FX_ONE), 12345);
    assert_eq!(fx_mul(FX_ONE, -12345), -12345);
}

#[test]
fn multiply_rounds_toward_zero() {
    assert_eq!(fx_mul(3, FX_HALF), 1);
    assert_eq!(fx_mul(-3, FX_HALF), -1);
    assert_eq!(fx_mul(-131072, 32768), -65536);
}

#[test]
fn multiply_saturates() {
    assert_eq!(fx_mul(i64::MAX, i64::MAX), i64::MAX);
    assert_eq!(fx_mul(i64::MAX, i64::MIN), i64::MIN);
}

#[test]
fn addition_saturates() {
    assert_eq!(fx_add(i64::MAX, 1), i64::MAX);
    assert_eq!(fx_add(i64::MIN, -1), i64::MIN);
    assert_eq!(fx_add(FX_ONE, FX_ONE), 131072);
    assert_eq!(fx_sub(FX_ONE, 131072), -FX_ONE);
    assert_eq!(fx_neg(i64::MIN), i64::MAX);
    assert_eq!(fx_abs(-42), 42);
}

#[test]
fn division_exact_cases() {
    assert_eq!(fx_div(FX_ONE, 131072), FX_HALF);
    assert_eq!(fx_div(FX_ONE, FX_ONE), FX_ONE);
    assert_eq!(fx_div(-FX_ONE, 131072), -FX_HALF);
}

#[test]
fn division_by_zero_gives_zero() {
    assert_eq!(fx_div(FX_ONE, 0), 0);
    assert_eq!(fx_div(0, 0), 0);
}

#[test]
fn square_roots() {
    assert_eq!(fx_sqrt(4 * FX_ONE), 2 * FX_ONE);
    assert_eq!(fx_sqrt(FX_ONE), FX_ONE);
    assert_eq!(fx_sqrt(0), 0);
    assert_eq!(fx_sqrt(-FX_ONE), 0);
    assert_eq!(fx_sqrt(131072), 92681);
}

#[test]
fn powers() {
    assert_eq!(fx_pow(FX_HALF, 2), 16384);
    assert_eq!(fx_pow(FX_ONE, 7), FX_ONE);
    assert_eq!(fx_pow(12345, 0), FX_ONE);
}

#[test]
fn min_max_clamp() {
    assert_eq!(fx_min(3, -4), -4);
    assert_eq!(fx_max(3, -4), 3);
    assert_eq!(fx_clamp(99, 0, 10), 10);
    assert_eq!(fx_clamp(-99, 0, 10), 0);
    assert_eq!(fx_clamp(5, 0, 10), 5);
}

#[test]
fn sine_cosine_landmarks() {
    assert_eq!(fx_sin(0), 0);
    assert_eq!(fx_sin(FX_HALF_PI), 65535);
    assert_eq!(fx_sin(FX_PI), 0);
    assert_eq!(fx_sin(-FX_HALF_PI), -65535);
    assert_eq!(fx_cos(0), 65535);
}

#[test]
fn sine_cosine_bounded_and_periodic() {
    let mut a: i64 = -500000;
    while a < 500000 {
        let s = fx_sin(a);
        let c = fx_cos(a);
        assert!(-FX_ONE <= s && s <= FX_ONE);
        assert!(-FX_ONE <= c && c <= FX_ONE);
        assert_eq!(fx_sin(a), fx_sin(a + 411774));
        a += 7919;
    }
}

#[test]
fn sine_close_to_reference() {
    let mut a: i64 = -411774;
    while a <= 411774 {
        let s = fx_sin(a) as f64 / 65536.0;
        let r = (a as f64 / 65536.0).sin();
        assert!((s - r).abs() < 0.002);
        a += 4096;
    }
}
