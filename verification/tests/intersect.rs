//! Ray/cube intersection: hit distances, normals, UVs, boundary rays,
//! and texture sampling.

use raytracing::color::Rgb8;
use raytracing::cube::Cube;
use raytracing::fixed::FX_ONE;
use raytracing::material::Material;
use raytracing::texture::Texture;
use raytracing::vec3::Fx3;

fn v(x: i64, y: i64, z: i64) -> Fx3 {
    Fx3 { x, y, z }
}

fn plain_material() -> Material {
    Material::new(v(FX_ONE, FX_ONE, FX_ONE), 32, [FX_ONE, 0, 0, 0], FX_ONE)
}

fn unit_cube() -> Cube {
    Cube::new(v(0, 0, 0), FX_ONE, plain_material())
}

#[test]
fn axis_ray_hits_front_face() {
    let cube = unit_cube();
    let hit = cube.ray_intersect(&v(-5 * FX_ONE, 0, 0), &v(FX_ONE, 0, 0)).unwrap();
    assert_eq!(hit.distance, 294912); // 4.5 units to the -X face
    assert_eq!(hit.normal, v(-FX_ONE, 0, 0));
    assert_eq!(hit.point, v(-32768, 0, 0));
}

#[test]
fn hits_have_positive_distance_and_axis_normals() {
    let cube = unit_cube();
    let dirs = [
        (v(-3 * FX_ONE, 0, 0), v(FX_ONE, 0, 0)),
        (v(3 * FX_ONE, 0, 0), v(-FX_ONE, 0, 0)),
        (v(0, 5 * FX_ONE, 0), v(0, -FX_ONE, 0)),
        (v(0, 0, -2 * FX_ONE), v(0, 0, FX_ONE)),
    ];
    for (o, d) in dirs {
        let hit = cube.ray_intersect(&o, &d).unwrap();
        assert!(hit.distance > 0);
        let n = hit.normal;
        let axis_unit = [
            v(FX_ONE, 0, 0),
            v(-FX_ONE, 0, 0),
            v(0, FX_ONE, 0),
            v(0, -FX_ONE, 0),
            v(0, 0, FX_ONE),
            v(0, 0, -FX_ONE),
        ];
        assert!(axis_unit.contains(&n));
    }
}

#[test]
fn parallel_ray_outside_slab_misses() {
    let cube = unit_cube();
    // parallel to the X slabs, origin outside the X interval
    let res = cube.ray_intersect(&v(2 * FX_ONE, -5 * FX_ONE, 0), &v(0, FX_ONE, 0));
    assert!(res.is_none());
}

#[test]
fn parallel_ray_from_inside_exits_with_positive_distance() {
    let cube = unit_cube();
    let hit = cube.ray_intersect(&v(0, 0, 0), &v(0, FX_ONE, 0)).unwrap();
    assert_eq!(hit.distance, 32768);
    assert_eq!(hit.normal, v(0, FX_ONE, 0));
}

#[test]
fn origin_on_face_pointing_outward_misses() {
    let cube = unit_cube();
    let res = cube.ray_intersect(&v(32768, 0, 0), &v(FX_ONE, 0, 0));
    assert!(res.is_none());
}

#[test]
fn ray_behind_cube_misses() {
    let cube = unit_cube();
    let res = cube.ray_intersect(&v(5 * FX_ONE, 0, 0), &v(FX_ONE, 0, 0));
    assert!(res.is_none());
}

#[test]
fn texture_sampling_nearest_with_clamp() {
    let red = Rgb8 { r: 255, g: 0, b: 0 };
    let green = Rgb8 { r: 0, g: 255, b: 0 };
    let blue = Rgb8 { r: 0, g: 0, b: 255 };
    let white = Rgb8 { r: 255, g: 255, b: 255 };
    let tex = Texture::new(2, 2, vec![red, green, blue, white]);
    assert_eq!(tex.sample(0, 0), v(FX_ONE, 0, 0));
    assert_eq!(tex.sample(FX_ONE, 0), v(0, FX_ONE, 0));
    assert_eq!(tex.sample(0, FX_ONE), v(0, 0, FX_ONE));
    assert_eq!(tex.sample(FX_ONE, FX_ONE), v(FX_ONE, FX_ONE, FX_ONE));
    // rounding: just below one half stays at texel 0
    assert_eq!(tex.sample(32767, 0), v(FX_ONE, 0, 0));
    // clamped outside [0, 1]
    assert_eq!(tex.sample(-9 * FX_ONE, 99 * FX_ONE), v(0, 0, FX_ONE));
}

#[test]
fn hit_material_is_modulated_by_texel() {
    let red = Rgb8 { r: 255, g: 0, b: 0 };
    let tex = Texture::new(1, 1, vec![red]);
    let mat = Material::new(v(FX_ONE, 32768, FX_ONE), 32, [FX_ONE, 0, 0, 0], FX_ONE);
    let cube = Cube::with_texture(v(0, 0, 0), FX_ONE, mat, tex);
    let hit = cube.ray_intersect(&v(-5 * FX_ONE, 0, 0), &v(FX_ONE, 0, 0)).unwrap();
    assert_eq!(hit.material.diffuse, v(FX_ONE, 0, 0));
}

#[test]
fn untextured_hit_keeps_material() {
    let cube = unit_cube();
    let hit = cube.ray_intersect(&v(-5 * FX_ONE, 0, 0), &v(FX_ONE, 0, 0)).unwrap();
    assert_eq!(hit.material.diffuse, v(FX_ONE, FX_ONE, FX_ONE));
}
