//! The diorama scene: a 10 x 10 stone floor with four diamond accents,
//! three stone walls, a dirt top floor with a 4 x 3 central aperture, and
//! three voxel trees. The builder's contract pins the exact cube sequence.

use vstd::prelude::*;
use crate::cube::{Cube, CubeV, cube_wf, scene_view, scene_wf};
use crate::material::{MatV, Material};
use crate::texture::{TexV, Texture, tex_wf};
use crate::vec3::{Fx3, V3};

verus! {

/// World x or z coordinate of grid column `i`: `-4.5 + i` in world units.
pub open spec fn grid_pos(i: int) -> int {
    -294912 + i * 65536
}

/// The stone material: light gray diffuse surface.
pub open spec fn stone_material() -> MatV {
    MatV {
        diffuse: V3 { x: 52429, y: 52429, z: 52429 },
        specular: 32,
        kd: 58982,
        ks: 6554,
        kr: 0,
        kt: 0,
        refractive: 65536,
    }
}

/// The diamond material: bright, shiny, half reflective.
pub open spec fn diamond_material() -> MatV {
    MatV {
        diffuse: V3 { x: 58982, y: 58982, z: 65536 },
        specular: 128,
        kd: 13107,
        ks: 19661,
        kr: 32768,
        kt: 0,
        refractive: 158597,
    }
}

/// The dirt material of the top floor.
pub open spec fn dirt_material() -> MatV {
    MatV {
        diffuse: V3 { x: 39322, y: 26214, z: 13107 },
        specular: 16,
        kd: 58982,
        ks: 6554,
        kr: 0,
        kt: 0,
        refractive: 65536,
    }
}

/// The trunk material of the trees.
pub open spec fn trunk_material() -> MatV {
    MatV {
        diffuse: V3 { x: 32768, y: 19661, z: 13107 },
        specular: 16,
        kd: 58982,
        ks: 6554,
        kr: 0,
        kt: 0,
        refractive: 65536,
    }
}

/// The leaves material: green and partly transparent.
pub open spec fn leaves_material() -> MatV {
    MatV {
        diffuse: V3 { x: 13107, y: 45875, z: 13107 },
        specular: 8,
        kd: 39322,
        ks: 6554,
        kr: 0,
        kt: 19661,
        refractive: 65536,
    }
}

/// The four floor cells that hold a diamond accent.
pub open spec fn is_diamond_spot(x: int, z: int) -> bool {
    ||| (x == 2 && z == 3)
    ||| (x == 7 && z == 2)
    ||| (x == 4 && z == 6)
    ||| (x == 8 && z == 7)
}

/// The bottom-floor cube of cell `(x, z)`: diamond on an accent cell when
/// that texture is present, stone otherwise.
pub open spec fn floor_cube(stone: TexV, diamond: Option<TexV>, x: int, z: int) -> CubeV {
    let center = V3 { x: grid_pos(x), y: -32768, z: grid_pos(z) };
    if is_diamond_spot(x, z) && diamond is Some {
        CubeV { center, size: 65536, material: diamond_material(), texture: diamond }
    } else {
        CubeV { center, size: 65536, material: stone_material(), texture: Option::Some(stone) }
    }
}

/// The bottom floor, row-major over the 10 x 10 grid.
pub open spec fn floor_seq(stone: TexV, diamond: Option<TexV>) -> Seq<CubeV> {
    Seq::new(100, |i: int| floor_cube(stone, diamond, i / 10, i % 10))
}

/// A wall cube of the left wall (`x = 0` column), layer `y`, cell `z`.
pub open spec fn left_wall_cube(stone: TexV, y: int, z: int) -> CubeV {
    CubeV {
        center: V3 { x: grid_pos(0), y: 32768 + y * 65536, z: grid_pos(z) },
        size: 65536,
        material: stone_material(),
        texture: Option::Some(stone),
    }
}

/// A wall cube of the right wall (`x = 9` column).
pub open spec fn right_wall_cube(stone: TexV, y: int, z: int) -> CubeV {
    CubeV {
        center: V3 { x: grid_pos(9), y: 32768 + y * 65536, z: grid_pos(z) },
        size: 65536,
        material: stone_material(),
        texture: Option::Some(stone),
    }
}

/// A wall cube of the back wall (`z = 9` row), columns 1 through 8.
pub open spec fn back_wall_cube(stone: TexV, y: int, x: int) -> CubeV {
    CubeV {
        center: V3 { x: grid_pos(x), y: 32768 + y * 65536, z: grid_pos(9) },
        size: 65536,
        material: stone_material(),
        texture: Option::Some(stone),
    }
}

/// The left wall: 5 layers of 10 cubes.
pub open spec fn left_wall_seq(stone: TexV) -> Seq<CubeV> {
    Seq::new(50, |i: int| left_wall_cube(stone, i / 10, i % 10))
}

/// The right wall: 5 layers of 10 cubes.
pub open spec fn right_wall_seq(stone: TexV) -> Seq<CubeV> {
    Seq::new(50, |i: int| right_wall_cube(stone, i / 10, i % 10))
}

/// The back wall: 5 layers of 8 cubes.
pub open spec fn back_wall_seq(stone: TexV) -> Seq<CubeV> {
    Seq::new(40, |i: int| back_wall_cube(stone, i / 8, 1 + i % 8))
}

/// The 4 x 3 aperture of the top floor.
pub open spec fn in_hole(x: int, z: int) -> bool {
    3 <= x < 7 && 4 <= z < 7
}

/// A top-floor cube of cell `(x, z)`.
pub open spec fn top_cube(dirt: TexV, x: int, z: int) -> CubeV {
    CubeV {
        center: V3 { x: grid_pos(x), y: 360448, z: grid_pos(z) },
        size: 65536,
        material: dirt_material(),
        texture: Option::Some(dirt),
    }
}

/// The first `k` cells of the top floor, skipping the aperture.
pub open spec fn top_prefix(dirt: TexV, k: nat) -> Seq<CubeV>
    decreases k,
{
    if k == 0 {
        Seq::empty()
    } else {
        let s = top_prefix(dirt, (k - 1) as nat);
        let x = (k - 1) as int / 10;
        let z = (k - 1) as int % 10;
        if in_hole(x, z) {
            s
        } else {
            s.push(top_cube(dirt, x, z))
        }
    }
}

/// A trunk cube of the tree at world coordinates `(wx, wz)`, layer `k`.
pub open spec fn trunk_cube(trunk: TexV, wx: int, wz: int, k: int) -> CubeV {
    CubeV {
        center: V3 { x: wx, y: 425984 + k * 65536, z: wz },
        size: 65536,
        material: trunk_material(),
        texture: Option::Some(trunk),
    }
}

/// A canopy cube at offsets `(dx, dy, dz)` from the canopy center.
pub open spec fn canopy_cube(leaves: TexV, wx: int, wz: int, dx: int, dy: int, dz: int) -> CubeV {
    CubeV {
        center: V3 { x: wx + dx * 65536, y: 557056 + (dy - 1) * 65536, z: wz + dz * 65536 },
        size: 65536,
        material: leaves_material(),
        texture: Option::Some(leaves),
    }
}

/// The canopy's top layer loses its four corners.
pub open spec fn canopy_skipped(dx: int, dy: int, dz: int) -> bool {
    dy == 2 && dx != 0 && dz != 0
}

/// The first `j` canopy cells in `(dy, dx, dz)` iteration order, with the
/// top-layer corners skipped.
pub open spec fn canopy_prefix(leaves: TexV, wx: int, wz: int, j: nat) -> Seq<CubeV>
    decreases j,
{
    if j == 0 {
        Seq::empty()
    } else {
        let s = canopy_prefix(leaves, wx, wz, (j - 1) as nat);
        let i = (j - 1) as int;
        let dy = 1 + i / 9;
        let dx = (i % 9) / 3 - 1;
        let dz = i % 3 - 1;
        if canopy_skipped(dx, dy, dz) {
            s
        } else {
            s.push(canopy_cube(leaves, wx, wz, dx, dy, dz))
        }
    }
}

/// The crown cube above the canopy center.
pub open spec fn crown_cube(leaves: TexV, wx: int, wz: int) -> CubeV {
    CubeV {
        center: V3 { x: wx, y: 622592, z: wz },
        size: 65536,
        material: leaves_material(),
        texture: Option::Some(leaves),
    }
}

/// One tree at grid cell `(tx, tz)`: a 3-cube trunk, the canopy, the crown.
pub open spec fn tree_seq(trunk: TexV, leaves: TexV, tx: int, tz: int) -> Seq<CubeV> {
    let wx = grid_pos(tx);
    let wz = grid_pos(tz);
    Seq::new(3, |k: int| trunk_cube(trunk, wx, wz, k)) + canopy_prefix(leaves, wx, wz, 18) + Seq::new(
        1,
        |k: int| crown_cube(leaves, wx, wz),
    )
}

/// The view of an optional texture.
pub open spec fn opt_tex_view(t: Option<Texture>) -> Option<TexV> {
    match t {
        Option::Some(tex) => Option::Some(tex@),
        Option::None => Option::None,
    }
}

/// The whole diorama: floor, three walls, the top floor when the dirt
/// texture is present, and the three trees when both tree textures are.
pub open spec fn diorama_seq(
    stone: TexV,
    diamond: Option<TexV>,
    dirt: Option<TexV>,
    trunk: Option<TexV>,
    leaves: Option<TexV>,
) -> Seq<CubeV> {
    let base = floor_seq(stone, diamond) + left_wall_seq(stone) + right_wall_seq(stone)
        + back_wall_seq(stone);
    let with_top = if dirt is Some {
        base + top_prefix(dirt->Some_0, 100)
    } else {
        base
    };
    if trunk is Some && leaves is Some {
        with_top + tree_seq(trunk->Some_0, leaves->Some_0, 1, 1) + tree_seq(
            trunk->Some_0,
            leaves->Some_0,
            8,
            2,
        ) + tree_seq(trunk->Some_0, leaves->Some_0, 2, 8)
    } else {
        with_top
    }
}

/// The views of optional textures are well-formed.
pub open spec fn opt_tex_wf(t: Option<TexV>) -> bool {
    t is Some ==> tex_wf(t->Some_0)
}

impl Clone for Texture {
    /// A clone shares nothing but holds the same pixels.
    fn clone(&self) -> (res: Self)
        ensures
            res@ == self@,
    {
        let mut pixels: Vec<crate::color::Rgb8> = Vec::new();
        let mut i: usize = 0;
        while i < self.pixels.len()
            invariant
                i <= self.pixels.len(),
                pixels@.len() == i as int,
                forall|j: int| 0 <= j < i ==> pixels@[j] == self.pixels@[j],
            decreases self.pixels.len() - i,
        {
            let p = self.pixels[i];
            pixels.push(p);
            i = i + 1;
        }
        proof {
            assert(pixels@ =~= self.pixels@);
        }
        Texture { width: self.width, height: self.height, pixels }
    }
}

fn make_stone_material() -> (m: Material)
    ensures
        m@ == stone_material(),
{
    Material::new(Fx3 { x: 52429, y: 52429, z: 52429 }, 32, [58982, 6554, 0, 0], 65536)
}

fn make_diamond_material() -> (m: Material)
    ensures
        m@ == diamond_material(),
{
    Material::new(Fx3 { x: 58982, y: 58982, z: 65536 }, 128, [13107, 19661, 32768, 0], 158597)
}

fn make_dirt_material() -> (m: Material)
    ensures
        m@ == dirt_material(),
{
    Material::new(Fx3 { x: 39322, y: 26214, z: 13107 }, 16, [58982, 6554, 0, 0], 65536)
}

fn make_trunk_material() -> (m: Material)
    ensures
        m@ == trunk_material(),
{
    Material::new(Fx3 { x: 32768, y: 19661, z: 13107 }, 16, [58982, 6554, 0, 0], 65536)
}

fn make_leaves_material() -> (m: Material)
    ensures
        m@ == leaves_material(),
{
    Material::new(Fx3 { x: 13107, y: 45875, z: 13107 }, 8, [39322, 6554, 0, 19661], 65536)
}

/// World coordinate of grid column `i`.
fn grid_coord(i: usize) -> (r: i64)
    requires
        i <= 9,
    ensures
        r as int == grid_pos(i as int),
{
    -294912 + (i as i64) * 65536
}

fn push_floor(cubes: &mut Vec<Cube>, stone: &Texture, diamond: &Option<Texture>)
    requires
        tex_wf(stone@),
        opt_tex_wf(opt_tex_view(*diamond)),
        scene_wf(scene_view(old(cubes)@)),
    ensures
        scene_view(final(cubes)@) == scene_view(old(cubes)@) + floor_seq(
            stone@,
            opt_tex_view(*diamond),
        ),
        scene_wf(scene_view(final(cubes)@)),
{
    let ghost base = scene_view(cubes@);
    let ghost section = floor_seq(stone@, opt_tex_view(*diamond));
    let mut j: usize = 0;
    proof {
        assert(scene_view(cubes@) =~= base + section.subrange(0, 0));
    }
    while j < 100
        invariant
            tex_wf(stone@),
            opt_tex_wf(opt_tex_view(*diamond)),
            0 <= j <= 100,
            section == floor_seq(stone@, opt_tex_view(*diamond)),
            scene_view(cubes@) == base + section.subrange(0, j as int),
            scene_wf(scene_view(cubes@)),
        decreases 100 - j,
    {
        let x = j / 10;
        let z = j % 10;
        let gx = grid_coord(x);
        let gz = grid_coord(z);
        let center = Fx3 { x: gx, y: -32768, z: gz };
        let is_diamond = (x == 2 && z == 3) || (x == 7 && z == 2) || (x == 4 && z == 6) || (x == 8
            && z == 7);
        let c = if is_diamond {
            match diamond {
                Option::Some(t) => Cube::with_texture(center, 65536, make_diamond_material(),
                    t.clone()),
                Option::None => Cube::with_texture(center, 65536, make_stone_material(),
                    stone.clone()),
            }
        } else {
            Cube::with_texture(center, 65536, make_stone_material(), stone.clone())
        };
        proof {
            assert(c@ == floor_cube(stone@, opt_tex_view(*diamond), j as int / 10, j as int % 10));
            assert(cube_wf(c@));
            crate::cube::lemma_scene_view_push(cubes@, c);
            crate::cube::lemma_scene_wf_push(scene_view(cubes@), c@);
        }
        cubes.push(c);
        proof {
            assert(scene_view(cubes@) =~= base + section.subrange(0, j as int + 1));
        }
        j = j + 1;
    }
    proof {
        assert(section.subrange(0, 100) =~= section);
    }
}

fn push_wall(cubes: &mut Vec<Cube>, stone: &Texture, which: u8)
    requires
        tex_wf(stone@),
        scene_wf(scene_view(old(cubes)@)),
        which < 3,
    ensures
        which == 0 ==> scene_view(final(cubes)@) == scene_view(old(cubes)@) + left_wall_seq(
            stone@,
        ),
        which == 1 ==> scene_view(final(cubes)@) == scene_view(old(cubes)@) + right_wall_seq(
            stone@,
        ),
        which == 2 ==> scene_view(final(cubes)@) == scene_view(old(cubes)@) + back_wall_seq(
            stone@,
        ),
        scene_wf(scene_view(final(cubes)@)),
{
    let ghost base = scene_view(cubes@);
    let ghost section = if which == 0 {
        left_wall_seq(stone@)
    } else if which == 1 {
        right_wall_seq(stone@)
    } else {
        back_wall_seq(stone@)
    };
    let count: usize = if which == 2 {
        40
    } else {
        50
    };
    let mut j: usize = 0;
    proof {
        assert(scene_view(cubes@) =~= base + section.subrange(0, 0));
    }
    while j < count
        invariant
            tex_wf(stone@),
            0 <= j <= count,
            which < 3,
            count == (if which == 2 {
                40int
            } else {
                50int
            }),
            section == (if which == 0 {
                left_wall_seq(stone@)
            } else if which == 1 {
                right_wall_seq(stone@)
            } else {
                back_wall_seq(stone@)
            }),
            section.len() == count,
            scene_view(cubes@) == base + section.subrange(0, j as int),
            scene_wf(scene_view(cubes@)),
        decreases count - j,
    {
        let c: Cube;
        if which == 0 {
            let y = j / 10;
            let z = j % 10;
            let py = 32768 + (y as i64) * 65536;
            c = Cube::with_texture(
                Fx3 { x: grid_coord(0), y: py, z: grid_coord(z) },
                65536,
                make_stone_material(),
                stone.clone(),
            );
            proof {
                assert(c@ == left_wall_cube(stone@, j as int / 10, j as int % 10));
            }
        } else if which == 1 {
            let y = j / 10;
            let z = j % 10;
            let py = 32768 + (y as i64) * 65536;
            c = Cube::with_texture(
                Fx3 { x: grid_coord(9), y: py, z: grid_coord(z) },
                65536,
                make_stone_material(),
                stone.clone(),
            );
            proof {
                assert(c@ == right_wall_cube(stone@, j as int / 10, j as int % 10));
            }
        } else {
            let y = j / 8;
            let x = 1 + j % 8;
            let py = 32768 + (y as i64) * 65536;
            c = Cube::with_texture(
                Fx3 { x: grid_coord(x), y: py, z: grid_coord(9) },
                65536,
                make_stone_material(),
                stone.clone(),
            );
            proof {
                assert(c@ == back_wall_cube(stone@, j as int / 8, 1 + j as int % 8));
            }
        }
        proof {
            assert(c@ == section[j as int]);
            assert(cube_wf(c@));
            crate::cube::lemma_scene_view_push(cubes@, c);
            crate::cube::lemma_scene_wf_push(scene_view(cubes@), c@);
        }
        cubes.push(c);
        proof {
            assert(scene_view(cubes@) =~= base + section.subrange(0, j as int + 1));
        }
        j = j + 1;
    }
    proof {
        assert(section.subrange(0, count as int) =~= section);
    }
}

fn push_top_floor(cubes: &mut Vec<Cube>, dirt: &Texture)
    requires
        tex_wf(dirt@),
        scene_wf(scene_view(old(cubes)@)),
    ensures
        scene_view(final(cubes)@) == scene_view(old(cubes)@) + top_prefix(dirt@, 100),
        scene_wf(scene_view(final(cubes)@)),
{
    let ghost base = scene_view(cubes@);
    let mut j: usize = 0;
    proof {
        assert(scene_view(cubes@) =~= base + top_prefix(dirt@, 0));
    }
    while j < 100
        invariant
            tex_wf(dirt@),
            0 <= j <= 100,
            scene_view(cubes@) == base + top_prefix(dirt@, j as nat),
            scene_wf(scene_view(cubes@)),
        decreases 100 - j,
    {
        let x = j / 10;
        let z = j % 10;
        if !(x >= 3 && x < 7 && z >= 4 && z < 7) {
            let c = Cube::with_texture(
                Fx3 { x: grid_coord(x), y: 360448, z: grid_coord(z) },
                65536,
                make_dirt_material(),
                dirt.clone(),
            );
            proof {
                assert(c@ == top_cube(dirt@, j as int / 10, j as int % 10));
                assert(cube_wf(c@));
                crate::cube::lemma_scene_view_push(cubes@, c);
                crate::cube::lemma_scene_wf_push(scene_view(cubes@), c@);
            }
            cubes.push(c);
        }
        proof {
            assert(scene_view(cubes@) =~= base + top_prefix(dirt@, (j + 1) as nat));
        }
        j = j + 1;
    }
}

fn push_tree(cubes: &mut Vec<Cube>, trunk: &Texture, leaves: &Texture, tx: usize, tz: usize)
    requires
        tex_wf(trunk@),
        tex_wf(leaves@),
        tx <= 9,
        tz <= 9,
        scene_wf(scene_view(old(cubes)@)),
    ensures
        scene_view(final(cubes)@) == scene_view(old(cubes)@) + tree_seq(
            trunk@,
            leaves@,
            tx as int,
            tz as int,
        ),
        scene_wf(scene_view(final(cubes)@)),
{
    let ghost base = scene_view(cubes@);
    let wx = grid_coord(tx);
    let wz = grid_coord(tz);
    let ghost trunk_part = Seq::new(3, |k: int| trunk_cube(trunk@, wx as int, wz as int, k));
    let mut k: usize = 0;
    proof {
        assert(scene_view(cubes@) =~= base + trunk_part.subrange(0, 0));
    }
    while k < 3
        invariant
            tex_wf(trunk@),
            0 <= k <= 3,
            trunk_part == Seq::new(3, |q: int| trunk_cube(trunk@, wx as int, wz as int, q)),
            -294912 <= wx <= 294912,
            -294912 <= wz <= 294912,
            scene_view(cubes@) == base + trunk_part.subrange(0, k as int),
            scene_wf(scene_view(cubes@)),
        decreases 3 - k,
    {
        let c = Cube::with_texture(
            Fx3 { x: wx, y: 425984 + (k as i64) * 65536, z: wz },
            65536,
            make_trunk_material(),
            trunk.clone(),
        );
        proof {
            assert(c@ == trunk_cube(trunk@, wx as int, wz as int, k as int));
            assert(cube_wf(c@));
            crate::cube::lemma_scene_view_push(cubes@, c);
            crate::cube::lemma_scene_wf_push(scene_view(cubes@), c@);
        }
        cubes.push(c);
        proof {
            assert(scene_view(cubes@) =~= base + trunk_part.subrange(0, k as int + 1));
        }
        k = k + 1;
    }
    let ghost base2 = scene_view(cubes@);
    let mut j: usize = 0;
    proof {
        assert(trunk_part.subrange(0, 3) =~= trunk_part);
        assert(scene_view(cubes@) =~= base2 + canopy_prefix(leaves@, wx as int, wz as int, 0));
    }
    while j < 18
        invariant
            tex_wf(leaves@),
            0 <= j <= 18,
            -294912 <= wx <= 294912,
            -294912 <= wz <= 294912,
            scene_view(cubes@) == base2 + canopy_prefix(leaves@, wx as int, wz as int, j as nat),
            scene_wf(scene_view(cubes@)),
        decreases 18 - j,
    {
        let dy = 1 + j / 9;
        let dxv = ((j % 9) / 3) as i64 - 1;
        let dzv = (j % 3) as i64 - 1;
        if !(dy == 2 && dxv != 0 && dzv != 0) {
            let c = Cube::with_texture(
                Fx3 {
                    x: wx + dxv * 65536,
                    y: 557056 + ((dy as i64) - 1) * 65536,
                    z: wz + dzv * 65536,
                },
                65536,
                make_leaves_material(),
                leaves.clone(),
            );
            proof {
                assert(c@ == canopy_cube(leaves@, wx as int, wz as int, dxv as int, dy as int,
                    dzv as int));
                assert(cube_wf(c@));
                crate::cube::lemma_scene_view_push(cubes@, c);
                crate::cube::lemma_scene_wf_push(scene_view(cubes@), c@);
            }
            cubes.push(c);
        }
        proof {
            assert(scene_view(cubes@) =~= base2 + canopy_prefix(leaves@, wx as int, wz as int, (j
                + 1) as nat));
        }
        j = j + 1;
    }
    let crown = Cube::with_texture(
        Fx3 { x: wx, y: 622592, z: wz },
        65536,
        make_leaves_material(),
        leaves.clone(),
    );
    proof {
        assert(crown@ == crown_cube(leaves@, wx as int, wz as int));
        assert(cube_wf(crown@));
        crate::cube::lemma_scene_view_push(cubes@, crown);
        crate::cube::lemma_scene_wf_push(scene_view(cubes@), crown@);
    }
    cubes.push(crown);
    proof {
        assert(scene_view(cubes@) =~= base + tree_seq(trunk@, leaves@, tx as int, tz as int));
    }
}

/// Builds the full diorama from the required stone texture and the
/// optional diamond, dirt, trunk, and leaves textures. Missing optional
/// textures degrade the scene exactly as the contract's sequence states.
pub fn create_diorama(
    stone: Texture,
    diamond: Option<Texture>,
    dirt: Option<Texture>,
    trunk: Option<Texture>,
    leaves: Option<Texture>,
) -> (cubes: Vec<Cube>)
    requires
        tex_wf(stone@),
        opt_tex_wf(opt_tex_view(diamond)),
        opt_tex_wf(opt_tex_view(dirt)),
        opt_tex_wf(opt_tex_view(trunk)),
        opt_tex_wf(opt_tex_view(leaves)),
    ensures
        scene_view(cubes@) == diorama_seq(
            stone@,
            opt_tex_view(diamond),
            opt_tex_view(dirt),
            opt_tex_view(trunk),
            opt_tex_view(leaves),
        ),
        scene_wf(scene_view(cubes@)),
{
    let mut cubes: Vec<Cube> = Vec::new();
    proof {
        assert(scene_view(cubes@) =~= Seq::<CubeV>::empty());
    }
    push_floor(&mut cubes, &stone, &diamond);
    push_wall(&mut cubes, &stone, 0);
    push_wall(&mut cubes, &stone, 1);
    push_wall(&mut cubes, &stone, 2);
    match &dirt {
        Option::Some(d) => {
            push_top_floor(&mut cubes, d);
        },
        Option::None => {},
    }
    match (&trunk, &leaves) {
        (Option::Some(t), Option::Some(l)) => {
            push_tree(&mut cubes, t, l, 1, 1);
            push_tree(&mut cubes, t, l, 8, 2);
            push_tree(&mut cubes, t, l, 2, 8);
        },
        _ => {},
    }
    proof {
        assert(scene_view(cubes@) =~= diorama_seq(stone@, opt_tex_view(diamond),
            opt_tex_view(dirt), opt_tex_view(trunk), opt_tex_view(leaves)));
    }
    cubes
}

} // verus!
