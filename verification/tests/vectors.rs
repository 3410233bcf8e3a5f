//! Vector operations, color conversion, and the reflection round trip.

use raytracing::color::{color_to_rgba, rgb8_to_color, Rgb8, Rgba8};
use raytracing::fixed::FX_ONE;
use raytracing::vec3::{
    v3_add, v3_cross, v3_dot, v3_length, v3_mulc, v3_neg, v3_normalize, v3_reflect, v3_scale,
    v3_sub, Fx3,
};

fn v(x: i64, y: i64, z: i64) -> Fx3 {
    Fx3 { x, y, z }
}

#[test]
fn basic_vector_arithmetic() {
    assert_eq!(v3_add(v(1, 2, 3), v(4, 5, 6)), v(5, 7, 9));
    assert_eq!(v3_sub(v(1, 2, 3), v(4, 5, 6)), v(-3, -3, -3));
    assert_eq!(v3_neg(v(1, -2, 3)), v(-1, 2, -3));
    assert_eq!(v3_scale(v(FX_ONE, 2 * FX_ONE, 0), 32768), v(32768, FX_ONE, 0));
    assert_eq!(v3_mulc(v(FX_ONE, 32768, 0), v(32768, 32768, FX_ONE)), v(32768, 16384, 0));
}

#[test]
fn dot_and_cross() {
    assert_eq!(v3_dot(v(FX_ONE, 0, 0), v(FX_ONE, 0, 0)), FX_ONE);
    assert_eq!(v3_dot(v(FX_ONE, 0, 0), v(0, FX_ONE, 0)), 0);
    assert_eq!(v3_cross(v(FX_ONE, 0, 0), v(0, FX_ONE, 0)), v(0, 0, FX_ONE));
    assert_eq!(v3_cross(v(0, FX_ONE, 0), v(FX_ONE, 0, 0)), v(0, 0, -FX_ONE));
}

#[test]
fn lengths_and_normalization() {
    assert_eq!(v3_length(v(3 * FX_ONE, 0, 0)), 3 * FX_ONE);
    assert_eq!(v3_normalize(v(3 * FX_ONE, 0, 0)), v(FX_ONE, 0, 0));
    assert_eq!(v3_normalize(v(0, -5 * FX_ONE, 0)), v(0, -FX_ONE, 0));
    assert_eq!(v3_normalize(v(0, 0, 0)), v(0, 0, 0));
    // a diagonal normalizes to length 1 within rounding
    let n = v3_normalize(v(FX_ONE, FX_ONE, FX_ONE));
    let l = v3_length(n);
    assert!((l - FX_ONE).abs() <= 4);
}

#[test]
fn reflect_flips_one_component() {
    let d = v(12345, -23456, 7);
    assert_eq!(v3_reflect(d, v(0, 0, FX_ONE)), v(12345, -23456, -7));
    assert_eq!(v3_reflect(d, v(0, -FX_ONE, 0)), v(12345, 23456, 7));
}

#[test]
fn reflect_twice_is_identity() {
    let d = v(12345, -23456, 7);
    for n in [
        v(FX_ONE, 0, 0),
        v(-FX_ONE, 0, 0),
        v(0, FX_ONE, 0),
        v(0, -FX_ONE, 0),
        v(0, 0, FX_ONE),
        v(0, 0, -FX_ONE),
    ] {
        assert_eq!(v3_reflect(v3_reflect(d, n), n), d);
    }
}

#[test]
fn color_conversions_are_exact() {
    assert_eq!(rgb8_to_color(Rgb8 { r: 255, g: 128, b: 0 }), v(FX_ONE, 32896, 0));
    assert_eq!(
        color_to_rgba(v(FX_ONE, 32768, 0)),
        Rgba8 { r: 255, g: 127, b: 0, a: 255 }
    );
    // out-of-range inputs clamp before conversion
    assert_eq!(
        color_to_rgba(v(9 * FX_ONE, -FX_ONE, FX_ONE)),
        Rgba8 { r: 255, g: 0, b: 255, a: 255 }
    );
}
