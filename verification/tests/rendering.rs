//! The adaptive renderer end to end: full-resolution images, the empty
//! scene against the sky, block flood-filling, and the quality policy.

use raytracing::camera::Camera;
use raytracing::color::{color_to_rgba, Rgb8, Rgba8};
use raytracing::cube::Cube;
use raytracing::fixed::{fx_div, fx_mul, fx_sub, FX_ONE};
use raytracing::framebuffer::Framebuffer;
use raytracing::material::{Light, Material};
use raytracing::render::{camera_moved, render_adaptive, render_scale_for, FX_TAN_HALF_FOV};
use raytracing::shade::procedural_sky;
use raytracing::vec3::{v3_normalize, Fx3};

fn v(x: i64, y: i64, z: i64) -> Fx3 {
    Fx3 { x, y, z }
}

fn pixel(fb: &Framebuffer, x: usize, y: usize) -> Rgba8 {
    fb.data[y * fb.width + x]
}

/// The pixel the renderer must produce for `(px, py)`, computed by hand
/// through the public camera and sky functions (empty scene).
fn expected_sky_pixel(cam: &Camera, w: usize, h: usize, px: usize, py: usize) -> Rgba8 {
    let wfx = (w as i64) * 65536;
    let hfx = (h as i64) * 65536;
    let aspect = fx_div(wfx, hfx);
    let sx = fx_mul(
        fx_mul(fx_sub(fx_div((2 * px as i64) * 65536, wfx), FX_ONE), aspect),
        FX_TAN_HALF_FOV,
    );
    let sy = fx_mul(fx_sub(FX_ONE, fx_div((2 * py as i64) * 65536, hfx)), FX_TAN_HALF_FOV);
    let d_world = cam.basis_change(&v3_normalize(v(sx, sy, -FX_ONE)));
    color_to_rgba(procedural_sky(&d_world))
}

fn white_light() -> Light {
    Light::new(v(0, 10 * FX_ONE, 0), Rgb8 { r: 255, g: 255, b: 200 }, 3 * FX_ONE)
}

#[test]
fn empty_scene_renders_the_sky_everywhere() {
    let mut fb = Framebuffer::new(16, 16);
    let objects: Vec<Cube> = Vec::new();
    let cam = Camera::new(v(0, 0, 0), 51472, 9000);
    render_adaptive(&mut fb, &objects, &cam, &white_light(), FX_ONE);
    for y in 0..16 {
        for x in 0..16 {
            assert_eq!(pixel(&fb, x, y), expected_sky_pixel(&cam, 16, 16, x, y));
        }
    }
}

#[test]
fn looking_up_shows_exact_zenith_blue() {
    let mut fb = Framebuffer::new(2, 2);
    let objects: Vec<Cube> = Vec::new();
    // pitch at the clamp limit: the central ray points almost straight up
    let cam = Camera::new(v(0, 0, 0), 0, 98304);
    render_adaptive(&mut fb, &objects, &cam, &white_light(), FX_ONE);
    // pixel (1, 1) has screen coordinates exactly (0, 0): the forward ray
    assert_eq!(pixel(&fb, 1, 1), Rgba8 { r: 76, g: 127, b: 255, a: 255 });
}

#[test]
fn single_cube_image_center_hit_corners_sky() {
    let mat = Material::new(v(FX_ONE, FX_ONE, FX_ONE), 32, [FX_ONE, 0, 0, 0], FX_ONE);
    let objects = vec![Cube::new(v(0, 0, 0), FX_ONE, mat)];
    // eye at (0, 0, 5) looking along -Z
    let cam = Camera::new(v(0, 0, 5 * FX_ONE), -102944, 0);
    let light = Light::new(
        v(2 * FX_ONE, 2 * FX_ONE, 5 * FX_ONE),
        Rgb8 { r: 255, g: 255, b: 255 },
        FX_ONE,
    );
    let mut fb = Framebuffer::new(64, 64);
    render_adaptive(&mut fb, &objects, &cam, &light, FX_ONE);
    // the central ray hits the cube: at least the ambient shows
    let center = pixel(&fb, 32, 32);
    assert!(center.r >= 25 && center.g >= 25 && center.b >= 38);
    // the cube is white-lit, never bluer than the sky corners
    for (x, y) in [(0usize, 0usize), (63, 0), (0, 63), (63, 63)] {
        assert_eq!(pixel(&fb, x, y), expected_sky_pixel(&cam, 64, 64, x, y));
    }
}

#[test]
fn adaptive_blocks_are_uniform_and_complete() {
    let mut fb = Framebuffer::new(640, 480);
    let objects: Vec<Cube> = Vec::new();
    let cam = Camera::new(v(0, 0, 0), 51472, 9000);
    // scale 0.125: 80 x 60 blocks of 8 x 8 pixels
    render_adaptive(&mut fb, &objects, &cam, &white_light(), 8192);
    let black = Rgba8 { r: 0, g: 0, b: 0, a: 255 };
    for y in 0..480 {
        for x in 0..640 {
            let p = pixel(&fb, x, y);
            // every pixel was written: the sky is never black
            assert_ne!(p, black);
            // and equals its block's top-left pixel
            assert_eq!(p, pixel(&fb, (x / 8) * 8, (y / 8) * 8));
        }
    }
    // each block holds exactly the color of the ray through its center
    for (bx, by) in [(0usize, 0usize), (40, 30), (79, 59)] {
        assert_eq!(
            pixel(&fb, bx * 8, by * 8),
            expected_sky_pixel(&cam, 640, 480, bx * 8 + 4, by * 8 + 4)
        );
    }
    // neighboring blocks across the vertical gradient do differ
    assert_ne!(pixel(&fb, 0, 0), pixel(&fb, 0, 472));
}

#[test]
fn full_resolution_threshold() {
    // at scale 0.95 the renderer goes pixel by pixel; blocks of size one
    let mut fb = Framebuffer::new(9, 9);
    let objects: Vec<Cube> = Vec::new();
    let cam = Camera::new(v(0, 0, 0), 51472, 9000);
    render_adaptive(&mut fb, &objects, &cam, &white_light(), 62261);
    for y in 0..9 {
        assert_eq!(pixel(&fb, 0, y), expected_sky_pixel(&cam, 9, 9, 0, y));
    }
}

#[test]
fn render_scale_policy() {
    assert_eq!(render_scale_for(0), 8192);
    assert_eq!(render_scale_for(2), 8192);
    assert_eq!(render_scale_for(3), 32768);
    assert_eq!(render_scale_for(7), 32768);
    assert_eq!(render_scale_for(8), 49152);
    assert_eq!(render_scale_for(1000), 49152);
}

#[test]
fn movement_detection_thresholds() {
    let cam = Camera::new(v(0, 0, 0), 0, 0);
    assert!(!camera_moved(v(0, 0, 0), 0, 0, &cam));
    // eye moved by more than 0.01 units
    assert!(camera_moved(v(0, 0, 1000), 0, 0, &cam));
    // yaw changed by more than 0.001 radians
    assert!(camera_moved(v(0, 0, 0), 67, 0, &cam));
    assert!(!camera_moved(v(0, 0, 0), 66, 0, &cam));
    // pitch likewise
    assert!(camera_moved(v(0, 0, 0), 0, -67, &cam));
}

#[test]
fn one_pixel_framebuffer_renders() {
    let mut fb = Framebuffer::new(1, 1);
    let objects: Vec<Cube> = Vec::new();
    let cam = Camera::new(v(0, 0, 0), 0, 0);
    render_adaptive(&mut fb, &objects, &cam, &white_light(), FX_ONE);
    assert_eq!(pixel(&fb, 0, 0), expected_sky_pixel(&cam, 1, 1, 0, 0));
}

#[test]
fn tiny_scale_floods_one_block_over_everything() {
    // scale 1/65536 rounds the grid down to a single block per axis
    let mut fb = Framebuffer::new(5, 4);
    let objects: Vec<Cube> = Vec::new();
    let cam = Camera::new(v(0, 0, 0), 51472, 9000);
    render_adaptive(&mut fb, &objects, &cam, &white_light(), 1);
    let first = pixel(&fb, 0, 0);
    for y in 0..4 {
        for x in 0..5 {
            assert_eq!(pixel(&fb, x, y), first);
        }
    }
    // the single block samples its center ray (5 / 2, 4 / 2)
    assert_eq!(first, expected_sky_pixel(&cam, 5, 4, 2, 2));
}

#[test]
fn framebuffer_set_pixel_and_clear() {
    let mut fb = Framebuffer::new(4, 3);
    let red = Rgba8 { r: 255, g: 0, b: 0, a: 255 };
    fb.set_current_color(red);
    fb.set_pixel(2, 1);
    assert_eq!(pixel(&fb, 2, 1), red);
    assert_eq!(pixel(&fb, 1, 1), Rgba8 { r: 0, g: 0, b: 0, a: 255 });
    fb.clear();
    for i in 0..12 {
        assert_eq!(fb.data[i], red);
    }
}
