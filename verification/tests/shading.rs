//! The integrator: sky values, fully lit diffuse shading, reflection and
//! transparency against the sky, and the shadow feeler.

use raytracing::color::Rgb8;
use raytracing::cube::{Cube, Intersect};
use raytracing::fixed::FX_ONE;
use raytracing::material::{Light, Material};
use raytracing::shade::{cast_ray, cast_shadow, procedural_sky};
use raytracing::vec3::Fx3;

fn v(x: i64, y: i64, z: i64) -> Fx3 {
    Fx3 { x, y, z }
}

fn white_light(position: Fx3, intensity: i64) -> Light {
    Light::new(position, Rgb8 { r: 255, g: 255, b: 255 }, intensity)
}

#[test]
fn sky_is_blue_at_the_zenith() {
    assert_eq!(procedural_sky(&v(0, FX_ONE, 0)), v(19661, 32768, FX_ONE));
    assert_eq!(procedural_sky(&v(10, 9 * FX_ONE, -10)), v(19661, 32768, FX_ONE));
}

#[test]
fn sky_is_green_at_the_nadir() {
    assert_eq!(procedural_sky(&v(0, -FX_ONE, 0)), v(6554, 39322, 13107));
}

#[test]
fn sky_is_white_at_the_band() {
    // a long, slightly raised direction whose normalized y lands in the
    // white band just above the horizon
    assert_eq!(procedural_sky(&v(0, 53000, 10 * FX_ONE)), v(FX_ONE, FX_ONE, FX_ONE));
}

#[test]
fn sky_horizon_mix_is_exact() {
    // direction (0, 0, 1): t = 0.5, green-to-white band
    assert_eq!(procedural_sky(&v(0, 0, FX_ONE)), v(60172, 63152, 60768));
}

#[test]
fn miss_returns_sky() {
    let objects: Vec<Cube> = Vec::new();
    let light = white_light(v(0, 10 * FX_ONE, 0), FX_ONE);
    let c = cast_ray(&v(0, 0, 0), &v(0, 0, -FX_ONE), &objects, &light, 0);
    assert_eq!(c, procedural_sky(&v(0, 0, -FX_ONE)));
}

#[test]
fn fully_lit_diffuse_is_diffuse_times_intensity_plus_ambient() {
    // White diffuse cube, light straight along the +Z normal at distance 1,
    // intensity 0.2: exact expected shade computed from the contracts.
    let mat = Material::new(v(FX_ONE, FX_ONE, FX_ONE), 32, [FX_ONE, 0, 0, 0], FX_ONE);
    let objects = vec![Cube::new(v(0, 0, 0), FX_ONE, mat)];
    let light = white_light(v(0, 0, 98304), 13107);
    let c = cast_ray(&v(0, 0, 5 * FX_ONE), &v(0, 0, -FX_ONE), &objects, &light, 0);
    assert_eq!(c, v(19595, 19595, 22871));
}

#[test]
fn reflective_cube_shows_sky_of_bounced_ray() {
    // Mirror cube seen from above: the bounced ray goes straight up, so the
    // pixel is the zenith blue plus ambient, clamped.
    let mat = Material::new(v(FX_ONE, FX_ONE, FX_ONE), 32, [0, 0, FX_ONE, 0], FX_ONE);
    let objects = vec![Cube::new(v(0, 0, 0), FX_ONE, mat)];
    let light = white_light(v(0, 10 * FX_ONE, 0), FX_ONE);
    let c = cast_ray(&v(0, 5 * FX_ONE, 0), &v(0, -FX_ONE, 0), &objects, &light, 0);
    assert_eq!(c, v(26215, 39322, FX_ONE));
}

#[test]
fn transparent_cube_shows_sky_of_continuing_ray() {
    // Transparent cube, ray starting at its center going down: the exit hit
    // continues into the sky below, so the color is the nadir green plus
    // ambient.
    let mat = Material::new(v(FX_ONE, FX_ONE, FX_ONE), 32, [0, 0, 0, FX_ONE], FX_ONE);
    let objects = vec![Cube::new(v(0, 0, 0), FX_ONE, mat)];
    let light = white_light(v(0, 10 * FX_ONE, 0), FX_ONE);
    let c = cast_ray(&v(0, 0, 0), &v(0, -FX_ONE, 0), &objects, &light, 0);
    assert_eq!(c, v(13108, 45876, 22937));
}

#[test]
fn all_colors_stay_in_unit_range() {
    let mat = Material::new(v(FX_ONE, FX_ONE, FX_ONE), 128, [FX_ONE, FX_ONE, 0, 0], FX_ONE);
    let objects = vec![Cube::new(v(0, 0, 0), FX_ONE, mat)];
    let light = white_light(v(0, FX_ONE, 0), 100 * FX_ONE);
    let c = cast_ray(&v(0, 5 * FX_ONE, 0), &v(0, -FX_ONE, 0), &objects, &light, 0);
    assert!(0 <= c.x && c.x <= FX_ONE);
    assert!(0 <= c.y && c.y <= FX_ONE);
    assert!(0 <= c.z && c.z <= FX_ONE);
}

#[test]
fn shadow_feeler_detects_blocker() {
    let mat = Material::new(v(FX_ONE, FX_ONE, FX_ONE), 32, [FX_ONE, 0, 0, 0], FX_ONE);
    let floor_hit = Intersect {
        point: v(0, 32768, 0),
        normal: v(0, FX_ONE, 0),
        distance: FX_ONE,
        material: mat,
    };
    let light = white_light(v(0, 10 * FX_ONE, 0), FX_ONE);
    let clear: Vec<Cube> = Vec::new();
    assert_eq!(cast_shadow(&floor_hit, &light, &clear), 0);
    let blocker = vec![Cube::new(v(0, 5 * FX_ONE, 0), FX_ONE, mat)];
    assert_eq!(cast_shadow(&floor_hit, &light, &blocker), 52429);
}

#[test]
fn distant_light_takes_the_fast_path() {
    let mat = Material::new(v(FX_ONE, FX_ONE, FX_ONE), 32, [FX_ONE, 0, 0, 0], FX_ONE);
    let hit = Intersect {
        point: v(0, 0, 0),
        normal: v(0, FX_ONE, 0),
        distance: FX_ONE,
        material: mat,
    };
    let light = white_light(v(0, 30 * FX_ONE, 0), FX_ONE);
    let clear: Vec<Cube> = Vec::new();
    assert_eq!(cast_shadow(&hit, &light, &clear), 13107);
}

#[test]
fn shadowed_floor_is_darker_than_lit_floor() {
    let mat = Material::new(v(FX_ONE, FX_ONE, FX_ONE), 32, [FX_ONE, 0, 0, 0], FX_ONE);
    let floor = Cube::new(v(0, 0, 0), FX_ONE, mat);
    // the light stands up and toward +X so the lit face sees it directly
    let light = white_light(v(5 * FX_ONE, 10 * FX_ONE, 0), 2 * FX_ONE);
    // the primary ray comes in from the +X side at height 0, so the raised
    // blocker never occludes it, only the shadow feeler
    let o = v(5 * FX_ONE, 0, 0);
    let d = v(-FX_ONE, 0, 0);
    let lit = {
        let objects = vec![Cube::new(v(0, 0, 0), FX_ONE, mat)];
        cast_ray(&o, &d, &objects, &light, 0)
    };
    let shadowed = {
        let blocker = Cube::new(v(180224, 327680, 0), 3 * FX_ONE, mat);
        let objects = vec![floor, blocker];
        cast_ray(&o, &d, &objects, &light, 0)
    };
    assert!(shadowed.x < lit.x);
    assert!(shadowed.y < lit.y);
    assert!(shadowed.z < lit.z);
}
