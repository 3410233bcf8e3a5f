//! The diorama scene builder: cube counts, degradation without optional
//! textures, and spot checks of positions and materials.

use raytracing::color::Rgb8;
use raytracing::fixed::FX_ONE;
use raytracing::scene::create_diorama;
use raytracing::texture::Texture;
use raytracing::vec3::Fx3;

fn v(x: i64, y: i64, z: i64) -> Fx3 {
    Fx3 { x, y, z }
}

fn tex(r: u8, g: u8, b: u8) -> Texture {
    Texture::new(1, 1, vec![Rgb8 { r, g, b }])
}

#[test]
fn full_diorama_has_all_sections() {
    let cubes = create_diorama(
        tex(128, 128, 128),
        Some(tex(200, 220, 255)),
        Some(tex(150, 100, 50)),
        Some(tex(110, 80, 40)),
        Some(tex(40, 160, 40)),
    );
    // 100 floor + 50 + 50 + 40 walls + 88 top floor + 3 * 18 tree cubes
    assert_eq!(cubes.len(), 382);
}

#[test]
fn stone_only_diorama_degrades() {
    let cubes = create_diorama(tex(128, 128, 128), None, None, None, None);
    // 100 floor + 140 wall cubes, no top floor, no trees
    assert_eq!(cubes.len(), 240);
}

#[test]
fn dirt_without_trees_adds_only_the_top_floor() {
    let cubes = create_diorama(tex(1, 2, 3), None, Some(tex(4, 5, 6)), None, None);
    assert_eq!(cubes.len(), 328);
}

#[test]
fn floor_corner_and_diamond_spots() {
    let cubes = create_diorama(
        tex(128, 128, 128),
        Some(tex(200, 220, 255)),
        None,
        None,
        None,
    );
    // first cube: floor cell (0, 0) at (-4.5, -0.5, -4.5)
    assert_eq!(cubes[0].center, v(-294912, -32768, -294912));
    assert_eq!(cubes[0].size, FX_ONE);
    // stone diffuse
    assert_eq!(cubes[0].material.diffuse, v(52429, 52429, 52429));
    // cell (2, 3) holds a diamond: half reflective, Phong exponent 128
    let d = &cubes[2 * 10 + 3];
    assert_eq!(d.material.diffuse, v(58982, 58982, FX_ONE));
    assert_eq!(d.material.albedo[2], 32768);
    assert_eq!(d.material.specular, 128);
    // its neighbor is plain stone
    assert_eq!(cubes[2 * 10 + 4].material.albedo[2], 0);
}

#[test]
fn walls_stand_on_the_floor_edges() {
    let cubes = create_diorama(tex(9, 9, 9), None, None, None, None);
    // left wall starts right after the 100 floor cubes
    assert_eq!(cubes[100].center, v(-294912, 32768, -294912));
    // right wall after 50 more
    assert_eq!(cubes[150].center, v(294912, 32768, -294912));
    // back wall: x runs from column 1, z fixed at the far edge
    assert_eq!(cubes[200].center, v(-229376, 32768, 294912));
}

#[test]
fn top_floor_skips_the_aperture() {
    let cubes = create_diorama(tex(1, 1, 1), None, Some(tex(2, 2, 2)), None, None);
    // the 88 top cubes sit at y = 5.5 and never inside the 4 x 3 hole
    let top = &cubes[240..];
    assert_eq!(top.len(), 88);
    for c in top {
        assert_eq!(c.center.y, 360448);
        let x = (c.center.x + 294912) / FX_ONE;
        let z = (c.center.z + 294912) / FX_ONE;
        assert!(!(3 <= x && x < 7 && 4 <= z && z < 7));
    }
}

#[test]
fn trees_have_trunk_canopy_and_crown() {
    let cubes = create_diorama(
        tex(1, 1, 1),
        None,
        None,
        Some(tex(3, 3, 3)),
        Some(tex(4, 4, 4)),
    );
    assert_eq!(cubes.len(), 240 + 54);
    let tree = &cubes[240..258];
    // trunk: three cubes at x = z = grid cell 1, stacked from y = 6.5
    assert_eq!(tree[0].center, v(-229376, 425984, -229376));
    assert_eq!(tree[1].center.y, 425984 + FX_ONE);
    assert_eq!(tree[2].center.y, 425984 + 2 * FX_ONE);
    // transparent leaves
    assert_eq!(tree[3].material.albedo[3], 19661);
    // the crown tops the tree
    assert_eq!(tree[17].center, v(-229376, 622592, -229376));
}
