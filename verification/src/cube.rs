//! The axis-aligned cube primitive: slab-method ray intersection, face
//! normal selection, per-face UV coordinates, and texture modulation.

use vstd::prelude::*;
use crate::fixed::{FX_HALF, FX_ONE, abs_i, fabs, fadd, fclamp, fdiv, fmax, fmin, fmul, fneg, fsub,
    fx_abs, fx_add, fx_clamp, fx_div, fx_max, fx_min, fx_mul, fx_neg, fx_sub};
use crate::material::{MatV, Material, mat_wf};
use crate::texture::{TexV, Texture, tex_sample, tex_wf};
use crate::vec3::{Fx3, V3, v3_add, v3_mulc, v3_scale, v3_sub, vadd, vmulc, vscale, vsub};

verus! {

/// Substitute inverse for a direction component that is exactly zero:
/// the fixed-point representation of 1e8.
pub const FX_LARGE: i64 = 6_553_600_000_000;

/// The mathematical model of a cube.
pub struct CubeV {
    pub center: V3,
    pub size: int,
    pub material: MatV,
    pub texture: Option<TexV>,
}

/// The mathematical model of an intersection record.
pub struct HitV {
    pub point: V3,
    pub normal: V3,
    pub distance: int,
    pub material: MatV,
}

/// An axis-aligned cube with an edge length, a material, and an
/// optional texture shared by all six faces.
pub struct Cube {
    pub center: Fx3,
    pub size: i64,
    pub material: Material,
    pub texture: Option<Texture>,
}

/// An intersection record: hit point, outward unit normal, distance along
/// the ray, and the material with its diffuse color already modulated by
/// the sampled texel.
#[derive(Clone, Copy)]
pub struct Intersect {
    pub point: Fx3,
    pub normal: Fx3,
    pub distance: i64,
    pub material: Material,
}

impl View for Cube {
    type V = CubeV;

    open spec fn view(&self) -> CubeV {
        CubeV {
            center: self.center@,
            size: self.size as int,
            material: self.material@,
            texture: match self.texture {
                Option::Some(t) => Option::Some(t@),
                Option::None => Option::None,
            },
        }
    }
}

impl View for Intersect {
    type V = HitV;

    open spec fn view(&self) -> HitV {
        HitV {
            point: self.point@,
            normal: self.normal@,
            distance: self.distance as int,
            material: self.material@,
        }
    }
}

/// A well-formed cube: positive edge length, well-formed material and texture.
pub open spec fn cube_wf(c: CubeV) -> bool {
    &&& c.size > 0
    &&& mat_wf(c.material)
    &&& (c.texture is Some ==> tex_wf(c.texture->Some_0))
}

/// Half the edge length.
pub open spec fn cube_half(size: int) -> int {
    fmul(size, FX_HALF as int)
}

/// The guarded inverse of a direction component: a zero component gets a
/// large positive substitute so the slab arithmetic stays finite.
pub open spec fn inv_axis(d: int) -> int {
    if d == 0 {
        FX_LARGE as int
    } else {
        fdiv(FX_ONE as int, d)
    }
}

/// The slab-method hit distance: the nearest strictly positive parameter
/// at which the ray enters or leaves the cube, if any.
pub open spec fn slab_t(c: CubeV, o: V3, d: V3) -> Option<int> {
    let h = cube_half(c.size);
    let ix = inv_axis(d.x);
    let iy = inv_axis(d.y);
    let iz = inv_axis(d.z);
    let t1 = fmul(fsub(fsub(c.center.x, h), o.x), ix);
    let t2 = fmul(fsub(fadd(c.center.x, h), o.x), ix);
    let t3 = fmul(fsub(fsub(c.center.y, h), o.y), iy);
    let t4 = fmul(fsub(fadd(c.center.y, h), o.y), iy);
    let t5 = fmul(fsub(fsub(c.center.z, h), o.z), iz);
    let t6 = fmul(fsub(fadd(c.center.z, h), o.z), iz);
    let tmin = fmax(fmax(fmin(t1, t2), fmin(t3, t4)), fmin(t5, t6));
    let tmax = fmin(fmin(fmax(t1, t2), fmax(t3, t4)), fmax(t5, t6));
    if tmax < 0 || tmin > tmax {
        Option::None
    } else {
        let t = if tmin > 0 {
            tmin
        } else {
            tmax
        };
        if t <= 0 {
            Option::None
        } else {
            Option::Some(t)
        }
    }
}

/// The outward face normal for a hit with local offset `l` from the cube
/// center: the axis of the largest component magnitude (ties broken in
/// X, Y, Z order), signed by that component.
pub open spec fn face_normal(l: V3) -> V3 {
    if fabs(l.x) >= fabs(l.y) && fabs(l.x) >= fabs(l.z) {
        if l.x >= 0 {
            V3 { x: FX_ONE as int, y: 0, z: 0 }
        } else {
            V3 { x: -(FX_ONE as int), y: 0, z: 0 }
        }
    } else if fabs(l.y) >= fabs(l.z) {
        if l.y >= 0 {
            V3 { x: 0, y: FX_ONE as int, z: 0 }
        } else {
            V3 { x: 0, y: -(FX_ONE as int), z: 0 }
        }
    } else {
        if l.z >= 0 {
            V3 { x: 0, y: 0, z: FX_ONE as int }
        } else {
            V3 { x: 0, y: 0, z: -(FX_ONE as int) }
        }
    }
}

/// Per-face UV coordinates, clamped into `[0, 1]`, oriented so textures
/// appear upright and unmirrored from outside.
pub open spec fn face_uv(l: V3, n: V3, h: int, size: int) -> (int, int) {
    let raw = if n.x > 0 {
        (fdiv(fadd(fneg(l.z), h), size), fdiv(fadd(l.y, h), size))
    } else if n.x < 0 {
        (fdiv(fadd(l.z, h), size), fdiv(fadd(l.y, h), size))
    } else if n.y > 0 {
        (fdiv(fadd(l.x, h), size), fdiv(fadd(fneg(l.z), h), size))
    } else if n.y < 0 {
        (fdiv(fadd(l.x, h), size), fdiv(fadd(l.z, h), size))
    } else if n.z > 0 {
        (fdiv(fadd(l.x, h), size), fdiv(fadd(l.y, h), size))
    } else {
        (fdiv(fadd(fneg(l.x), h), size), fdiv(fadd(l.y, h), size))
    };
    (fclamp(raw.0, 0, FX_ONE as int), fclamp(raw.1, 0, FX_ONE as int))
}

/// The texel at `(u, v)`, or white for an untextured cube.
pub open spec fn tex_or_white(t: Option<TexV>, u: int, v: int) -> V3 {
    match t {
        Option::Some(tex) => tex_sample(tex, u, v),
        Option::None => V3 { x: FX_ONE as int, y: FX_ONE as int, z: FX_ONE as int },
    }
}

/// The material with its diffuse color modulated componentwise.
pub open spec fn modulate(m: MatV, t: V3) -> MatV {
    MatV {
        diffuse: vmulc(m.diffuse, t),
        specular: m.specular,
        kd: m.kd,
        ks: m.ks,
        kr: m.kr,
        kt: m.kt,
        refractive: m.refractive,
    }
}

/// The full intersection of a ray with a cube: slab distance, hit point,
/// face normal, and texture-modulated material.
pub open spec fn cube_hit(c: CubeV, o: V3, d: V3) -> Option<HitV> {
    match slab_t(c, o, d) {
        Option::None => Option::None,
        Option::Some(t) => {
            let point = vadd(o, vscale(d, t));
            let l = vsub(point, c.center);
            let n = face_normal(l);
            let uv = face_uv(l, n, cube_half(c.size), c.size);
            Option::Some(
                HitV {
                    point: point,
                    normal: n,
                    distance: t,
                    material: modulate(c.material, tex_or_white(c.texture, uv.0, uv.1)),
                },
            )
        },
    }
}

/// The mathematical model of a scene: the views of its cubes, in order.
pub open spec fn scene_view(s: Seq<Cube>) -> Seq<CubeV> {
    s.map_values(|c: Cube| c@)
}

/// Every cube of the scene is well-formed.
pub open spec fn scene_wf(s: Seq<CubeV>) -> bool {
    forall|i: int| 0 <= i < s.len() ==> cube_wf(#[trigger] s[i])
}

/// Appending a cube to a scene appends its view to the scene's view.
pub proof fn lemma_scene_view_push(s: Seq<Cube>, c: Cube)
    ensures
        scene_view(s.push(c)) == scene_view(s).push(c@),
{
    assert(scene_view(s.push(c)) =~= scene_view(s).push(c@));
}

/// Appending a well-formed cube keeps the scene well-formed.
pub proof fn lemma_scene_wf_push(s: Seq<CubeV>, c: CubeV)
    requires
        scene_wf(s),
        cube_wf(c),
    ensures
        scene_wf(s.push(c)),
{
    assert forall|i: int| 0 <= i < s.push(c).len() implies cube_wf(#[trigger] s.push(c)[i]) by {
        if i < s.len() {
            assert(cube_wf(s[i]));
        }
    }
}

/// `n` is one of the six outward unit normals of an axis-aligned cube.
pub open spec fn axis_unit_normal(n: V3) -> bool {
    ||| n == (V3 { x: FX_ONE as int, y: 0, z: 0 })
    ||| n == (V3 { x: -(FX_ONE as int), y: 0, z: 0 })
    ||| n == (V3 { x: 0, y: FX_ONE as int, z: 0 })
    ||| n == (V3 { x: 0, y: -(FX_ONE as int), z: 0 })
    ||| n == (V3 { x: 0, y: 0, z: FX_ONE as int })
    ||| n == (V3 { x: 0, y: 0, z: -(FX_ONE as int) })
}

/// Every reported hit has a strictly positive distance.
pub proof fn lemma_hit_distance_positive(c: CubeV, o: V3, d: V3)
    ensures
        cube_hit(c, o, d) is Some ==> cube_hit(c, o, d)->Some_0.distance > 0,
{
}

/// Every reported normal is exactly one of the six axis-aligned unit vectors.
pub proof fn lemma_hit_normal_axis_unit(c: CubeV, o: V3, d: V3)
    ensures
        cube_hit(c, o, d) is Some ==> axis_unit_normal(cube_hit(c, o, d)->Some_0.normal),
{
}

/// UV coordinates always land in `[0, 1]^2`.
pub proof fn lemma_uv_in_range(l: V3, n: V3, h: int, size: int)
    ensures
        0 <= face_uv(l, n, h, size).0 <= FX_ONE as int,
        0 <= face_uv(l, n, h, size).1 <= FX_ONE as int,
{
}

/// A ray through the cube center along `+X`, starting outside on the
/// `-X` side (and nearer than the parallel-axis horizon of 1e8 units),
/// hits the front face: the normal is exactly `(-1, 0, 0)` and the
/// distance exactly the gap to that face.
pub proof fn lemma_axis_ray_front_face(c: CubeV, o: V3)
    requires
        2 <= c.size <= 0x100_0000_0000,
        -0x100_0000_0000 <= c.center.x <= 0x100_0000_0000,
        -0x100_0000_0000 <= c.center.y <= 0x100_0000_0000,
        -0x100_0000_0000 <= c.center.z <= 0x100_0000_0000,
        -0x100_0000_0000 <= o.x <= 0x100_0000_0000,
        o.y == c.center.y,
        o.z == c.center.z,
        o.x < c.center.x - cube_half(c.size),
        c.center.x + cube_half(c.size) - o.x < 100000000,
    ensures
        cube_hit(c, o, V3 { x: FX_ONE as int, y: 0, z: 0 }) is Some,
        cube_hit(c, o, V3 { x: FX_ONE as int, y: 0, z: 0 })->Some_0.distance == c.center.x
            - cube_half(c.size) - o.x,
        cube_hit(c, o, V3 { x: FX_ONE as int, y: 0, z: 0 })->Some_0.normal == (V3 {
            x: -(FX_ONE as int),
            y: 0,
            z: 0,
        }),
{
    let d = V3 { x: FX_ONE as int, y: 0, z: 0 };
    let h = cube_half(c.size);
    assert(crate::fixed::abs_i(c.size * 32768) == c.size * 32768) by (nonlinear_arith)
        requires
            c.size >= 0,
    ;
    assert(c.size * 32768 / 65536 == c.size / 2) by (nonlinear_arith)
        requires
            c.size >= 0,
    ;
    assert(h == c.size / 2);
    assert(1 <= h <= 0x80_0000_0000);
    assert(65536 * 65536 / 65536 == 65536) by (nonlinear_arith);
    assert(inv_axis(d.x) == 65536);
    let t1v = c.center.x - h - o.x;
    let t2v = c.center.x + h - o.x;
    assert(0 < t1v <= t2v < 100000000);
    crate::fixed::lemma_fmul_one(t1v);
    crate::fixed::lemma_fmul_one(t2v);
    assert(crate::fixed::abs_i(-h * 6553600000000) == h * 6553600000000) by (nonlinear_arith)
        requires
            h >= 0,
    ;
    assert(crate::fixed::abs_i(h * 6553600000000) == h * 6553600000000) by (nonlinear_arith)
        requires
            h >= 0,
    ;
    assert(h * 6553600000000 / 65536 == h * 100000000) by (nonlinear_arith);
    assert(h * 100000000 >= 100000000) by (nonlinear_arith)
        requires
            h >= 1,
    ;
    assert(fmul(-h, FX_LARGE as int) <= -100000000);
    assert(fmul(h, FX_LARGE as int) >= 100000000);
    assert(slab_t(c, o, d) == Option::Some(t1v));
    crate::fixed::lemma_fmul_zero(t1v);
    assert(vscale(d, t1v) == (V3 { x: t1v, y: 0, z: 0 }));
    let point = vadd(o, vscale(d, t1v));
    assert(point == (V3 { x: c.center.x - h, y: o.y, z: o.z }));
    let l = vsub(point, c.center);
    assert(l == (V3 { x: -h, y: 0, z: 0 }));
    assert(face_normal(l) == (V3 { x: -(FX_ONE as int), y: 0, z: 0 }));
}

/// A ray whose origin lies exactly on the `+X` face, pointing outward
/// along `+X`, reports no hit: the exit parameter is exactly zero and
/// zero-distance hits are rejected.
pub proof fn lemma_ray_on_face_outward_misses(c: CubeV, o: V3)
    requires
        2 <= c.size <= 0x100_0000_0000,
        -0x100_0000_0000 <= c.center.x <= 0x100_0000_0000,
        o.x == c.center.x + cube_half(c.size),
        o.y == c.center.y,
        o.z == c.center.z,
    ensures
        cube_hit(c, o, V3 { x: FX_ONE as int, y: 0, z: 0 }) is None,
{
    let d = V3 { x: FX_ONE as int, y: 0, z: 0 };
    let h = cube_half(c.size);
    assert(crate::fixed::abs_i(c.size * 32768) == c.size * 32768) by (nonlinear_arith)
        requires
            c.size >= 0,
    ;
    assert(c.size * 32768 / 65536 == c.size / 2) by (nonlinear_arith)
        requires
            c.size >= 0,
    ;
    assert(1 <= h <= 0x80_0000_0000);
    assert(65536 * 65536 / 65536 == 65536) by (nonlinear_arith);
    assert(inv_axis(d.x) == 65536);
    crate::fixed::lemma_fmul_one(-2 * h);
    assert(crate::fixed::abs_i(-h * 6553600000000) == h * 6553600000000) by (nonlinear_arith)
        requires
            h >= 0,
    ;
    assert(crate::fixed::abs_i(h * 6553600000000) == h * 6553600000000) by (nonlinear_arith)
        requires
            h >= 0,
    ;
    assert(h * 6553600000000 / 65536 == h * 100000000) by (nonlinear_arith);
    assert(h * 100000000 >= 100000000) by (nonlinear_arith)
        requires
            h >= 1,
    ;
    assert(h * 100000000 > 2 * h) by (nonlinear_arith)
        requires
            h >= 1,
    ;
    assert(fmul(-h, FX_LARGE as int) < -2 * h);
    assert(fmul(h, FX_LARGE as int) >= 100000000);
    assert(slab_t(c, o, d) == Option::<int>::None);
}

/// A ray parallel to the X slabs whose origin lies beyond the `+X` face
/// never hits: the guarded inverse keeps both X parameters far negative.
pub proof fn lemma_parallel_ray_outside_slab_misses(c: CubeV, o: V3)
    requires
        2 <= c.size <= 0x100_0000_0000,
        -0x100_0000_0000 <= c.center.x <= 0x100_0000_0000,
        -0x100_0000_0000 <= o.x <= 0x100_0000_0000,
        o.x > c.center.x + cube_half(c.size),
    ensures
        cube_hit(c, o, V3 { x: 0, y: FX_ONE as int, z: 0 }) is None,
{
    let d = V3 { x: 0, y: FX_ONE as int, z: 0 };
    let h = cube_half(c.size);
    assert(crate::fixed::abs_i(c.size * 32768) == c.size * 32768) by (nonlinear_arith)
        requires
            c.size >= 0,
    ;
    assert(c.size * 32768 / 65536 == c.size / 2) by (nonlinear_arith)
        requires
            c.size >= 0,
    ;
    assert(1 <= h <= 0x80_0000_0000);
    let gap = o.x - (c.center.x + h);
    assert(gap >= 1);
    assert(crate::fixed::abs_i((-gap) * 6553600000000) == gap * 6553600000000)
        by (nonlinear_arith)
        requires
            gap >= 0,
    ;
    assert(gap * 6553600000000 / 65536 == gap * 100000000) by (nonlinear_arith);
    assert(gap * 100000000 >= 100000000) by (nonlinear_arith)
        requires
            gap >= 1,
    ;
    assert(fmul(fsub(fadd(c.center.x, h), o.x), inv_axis(d.x)) <= -100000000);
    assert(fsub(fsub(c.center.x, h), o.x) <= fsub(fadd(c.center.x, h), o.x));
    let gap2 = o.x - (c.center.x - h);
    assert(gap2 >= 1);
    assert(crate::fixed::abs_i((-gap2) * 6553600000000) == gap2 * 6553600000000)
        by (nonlinear_arith)
        requires
            gap2 >= 0,
    ;
    assert(gap2 * 6553600000000 / 65536 == gap2 * 100000000) by (nonlinear_arith);
    assert(gap2 * 100000000 >= 100000000) by (nonlinear_arith)
        requires
            gap2 >= 1,
    ;
    assert(fmul(fsub(fsub(c.center.x, h), o.x), inv_axis(d.x)) <= -100000000);
    assert(slab_t(c, o, d) == Option::<int>::None);
}

/// A ray parallel to the X and Z slabs from strictly inside the cube
/// (smaller than the parallel-axis horizon of 1e8 units) exits through
/// the `+Y` face at a strictly positive distance.
pub proof fn lemma_parallel_ray_inside_exits(c: CubeV, o: V3)
    requires
        2 <= c.size <= 100000000,
        -0x100_0000_0000 <= c.center.x <= 0x100_0000_0000,
        -0x100_0000_0000 <= c.center.y <= 0x100_0000_0000,
        -0x100_0000_0000 <= c.center.z <= 0x100_0000_0000,
        -0x100_0000_0000 <= o.y <= 0x100_0000_0000,
        abs_i(o.x - c.center.x) < cube_half(c.size),
        abs_i(o.y - c.center.y) < cube_half(c.size),
        abs_i(o.z - c.center.z) < cube_half(c.size),
    ensures
        cube_hit(c, o, V3 { x: 0, y: FX_ONE as int, z: 0 }) is Some,
        cube_hit(c, o, V3 { x: 0, y: FX_ONE as int, z: 0 })->Some_0.distance == c.center.y
            + cube_half(c.size) - o.y,
        cube_hit(c, o, V3 { x: 0, y: FX_ONE as int, z: 0 })->Some_0.distance > 0,
{
    let d = V3 { x: 0, y: FX_ONE as int, z: 0 };
    let h = cube_half(c.size);
    assert(crate::fixed::abs_i(c.size * 32768) == c.size * 32768) by (nonlinear_arith)
        requires
            c.size >= 0,
    ;
    assert(c.size * 32768 / 65536 == c.size / 2) by (nonlinear_arith)
        requires
            c.size >= 0,
    ;
    assert(1 <= h <= 0x80_0000_0000);
    assert(65536 * 65536 / 65536 == 65536) by (nonlinear_arith);
    let t3v = c.center.y - h - o.y;
    let t4v = c.center.y + h - o.y;
    assert(t3v < 0 < t4v);
    assert(t4v <= 2 * h);
    crate::fixed::lemma_fmul_one(t3v);
    crate::fixed::lemma_fmul_one(t4v);
    let gx1 = o.x - (c.center.x - h);
    let gx2 = (c.center.x + h) - o.x;
    assert(gx1 >= 1 && gx2 >= 1);
    assert(crate::fixed::abs_i((-gx1) * 6553600000000) == gx1 * 6553600000000)
        by (nonlinear_arith)
        requires
            gx1 >= 0,
    ;
    assert(gx1 * 6553600000000 / 65536 == gx1 * 100000000) by (nonlinear_arith);
    assert(crate::fixed::abs_i(gx2 * 6553600000000) == gx2 * 6553600000000) by (nonlinear_arith)
        requires
            gx2 >= 0,
    ;
    assert(gx2 * 6553600000000 / 65536 == gx2 * 100000000) by (nonlinear_arith);
    assert(gx1 * 100000000 >= 100000000 && gx2 * 100000000 >= 100000000) by (nonlinear_arith)
        requires
            gx1 >= 1,
            gx2 >= 1,
    ;
    assert(fmul(fsub(fsub(c.center.x, h), o.x), inv_axis(d.x)) <= -100000000);
    assert(fmul(fsub(fadd(c.center.x, h), o.x), inv_axis(d.x)) >= 100000000);
    let gz1 = o.z - (c.center.z - h);
    let gz2 = (c.center.z + h) - o.z;
    assert(gz1 >= 1 && gz2 >= 1);
    assert(crate::fixed::abs_i((-gz1) * 6553600000000) == gz1 * 6553600000000)
        by (nonlinear_arith)
        requires
            gz1 >= 0,
    ;
    assert(gz1 * 6553600000000 / 65536 == gz1 * 100000000) by (nonlinear_arith);
    assert(crate::fixed::abs_i(gz2 * 6553600000000) == gz2 * 6553600000000) by (nonlinear_arith)
        requires
            gz2 >= 0,
    ;
    assert(gz2 * 6553600000000 / 65536 == gz2 * 100000000) by (nonlinear_arith);
    assert(gz1 * 100000000 >= 100000000 && gz2 * 100000000 >= 100000000) by (nonlinear_arith)
        requires
            gz1 >= 1,
            gz2 >= 1,
    ;
    assert(fmul(fsub(fsub(c.center.z, h), o.z), inv_axis(d.z)) <= -100000000);
    assert(fmul(fsub(fadd(c.center.z, h), o.z), inv_axis(d.z)) >= 100000000);
    assert(2 * h <= 100000000);
    assert(slab_t(c, o, d) == Option::Some(t4v));
}

fn face_normal_ex(l: Fx3) -> (n: Fx3)
    ensures
        n@ == face_normal(l@),
{
    let ax = fx_abs(l.x);
    let ay = fx_abs(l.y);
    let az = fx_abs(l.z);
    if ax >= ay && ax >= az {
        if l.x >= 0 {
            Fx3 { x: FX_ONE, y: 0, z: 0 }
        } else {
            Fx3 { x: -FX_ONE, y: 0, z: 0 }
        }
    } else if ay >= az {
        if l.y >= 0 {
            Fx3 { x: 0, y: FX_ONE, z: 0 }
        } else {
            Fx3 { x: 0, y: -FX_ONE, z: 0 }
        }
    } else {
        if l.z >= 0 {
            Fx3 { x: 0, y: 0, z: FX_ONE }
        } else {
            Fx3 { x: 0, y: 0, z: -FX_ONE }
        }
    }
}

fn face_uv_ex(l: Fx3, n: Fx3, h: i64, size: i64) -> (uv: (i64, i64))
    ensures
        uv.0 as int == face_uv(l@, n@, h as int, size as int).0,
        uv.1 as int == face_uv(l@, n@, h as int, size as int).1,
{
    let raw: (i64, i64) = if n.x > 0 {
        (fx_div(fx_add(fx_neg(l.z), h), size), fx_div(fx_add(l.y, h), size))
    } else if n.x < 0 {
        (fx_div(fx_add(l.z, h), size), fx_div(fx_add(l.y, h), size))
    } else if n.y > 0 {
        (fx_div(fx_add(l.x, h), size), fx_div(fx_add(fx_neg(l.z), h), size))
    } else if n.y < 0 {
        (fx_div(fx_add(l.x, h), size), fx_div(fx_add(l.z, h), size))
    } else if n.z > 0 {
        (fx_div(fx_add(l.x, h), size), fx_div(fx_add(l.y, h), size))
    } else {
        (fx_div(fx_add(fx_neg(l.x), h), size), fx_div(fx_add(l.y, h), size))
    };
    (fx_clamp(raw.0, 0, FX_ONE), fx_clamp(raw.1, 0, FX_ONE))
}

impl Cube {
    /// Builds an untextured cube.
    pub fn new(center: Fx3, size: i64, material: Material) -> (c: Cube)
        ensures
            c@ == (CubeV {
                center: center@,
                size: size as int,
                material: material@,
                texture: Option::<TexV>::None,
            }),
    {
        Cube { center, size, material, texture: None }
    }

    /// Builds a cube whose faces sample the given texture.
    pub fn with_texture(center: Fx3, size: i64, material: Material, texture: Texture) -> (c: Cube)
        ensures
            c@ == (CubeV {
                center: center@,
                size: size as int,
                material: material@,
                texture: Option::Some(texture@),
            }),
    {
        Cube { center, size, material, texture: Some(texture) }
    }

    /// Intersects a ray with this cube. Returns the nearest hit with a
    /// strictly positive distance, the outward face normal, and the
    /// material modulated by the sampled texel; `None` on a miss.
    pub fn ray_intersect(&self, ray_origin: &Fx3, ray_direction: &Fx3) -> (res: Option<Intersect>)
        requires
            cube_wf(self@),
        ensures
            res is Some <==> cube_hit(self@, ray_origin@, ray_direction@) is Some,
            res is Some ==> res->Some_0@ == cube_hit(self@, ray_origin@, ray_direction@)->Some_0,
    {
        let h = fx_mul(self.size, FX_HALF);
        let ix = if ray_direction.x == 0 {
            FX_LARGE
        } else {
            fx_div(FX_ONE, ray_direction.x)
        };
        let iy = if ray_direction.y == 0 {
            FX_LARGE
        } else {
            fx_div(FX_ONE, ray_direction.y)
        };
        let iz = if ray_direction.z == 0 {
            FX_LARGE
        } else {
            fx_div(FX_ONE, ray_direction.z)
        };
        let t1 = fx_mul(fx_sub(fx_sub(self.center.x, h), ray_origin.x), ix);
        let t2 = fx_mul(fx_sub(fx_add(self.center.x, h), ray_origin.x), ix);
        let t3 = fx_mul(fx_sub(fx_sub(self.center.y, h), ray_origin.y), iy);
        let t4 = fx_mul(fx_sub(fx_add(self.center.y, h), ray_origin.y), iy);
        let t5 = fx_mul(fx_sub(fx_sub(self.center.z, h), ray_origin.z), iz);
        let t6 = fx_mul(fx_sub(fx_add(self.center.z, h), ray_origin.z), iz);
        let tmin = fx_max(fx_max(fx_min(t1, t2), fx_min(t3, t4)), fx_min(t5, t6));
        let tmax = fx_min(fx_min(fx_max(t1, t2), fx_max(t3, t4)), fx_max(t5, t6));
        if tmax < 0 || tmin > tmax {
            return None;
        }
        let t = if tmin > 0 {
            tmin
        } else {
            tmax
        };
        if t <= 0 {
            return None;
        }
        proof {
            assert(slab_t(self@, ray_origin@, ray_direction@) == Option::Some(t as int));
        }
        let point = v3_add(*ray_origin, v3_scale(*ray_direction, t));
        let l = v3_sub(point, self.center);
        let n = face_normal_ex(l);
        let uv = face_uv_ex(l, n, h, self.size);
        let tex = match &self.texture {
            Option::Some(tx) => tx.sample(uv.0, uv.1),
            Option::None => Fx3 { x: FX_ONE, y: FX_ONE, z: FX_ONE },
        };
        let material = Material {
            diffuse: v3_mulc(self.material.diffuse, tex),
            specular: self.material.specular,
            albedo: self.material.albedo,
            refractive_index: self.material.refractive_index,
        };
        Some(Intersect { point, normal: n, distance: t, material })
    }
}

} // verus!
