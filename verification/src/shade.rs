//! The integrator: procedural sky, closest-hit search, Phong-style direct
//! lighting with a shadow feeler, and bounded recursion for reflection and
//! transparency. Every stage mirrors a spec function exactly, and every
//! returned color lies in `[0, 1]^3`.

use vstd::prelude::*;
use crate::color::rgb_color;
use crate::cube::{Cube, CubeV, HitV, Intersect, cube_hit, cube_wf, scene_view, scene_wf};
use crate::fixed::{FX_ONE, abs_i, fadd, fdiv, fmax, fmul, fpow, fsub, fx_add, fx_div, fx_max, fx_mul,
    fx_pow, fx_sub};
use crate::material::{Light, LightV};
use crate::vec3::{Fx3, V3, v3_add, v3_clamp01, v3_dot, v3_length, v3_neg, v3_normalize,
    v3_reflect, v3_scale, v3_sub, v_in_unit_range, vadd, vclamp01, vdot, vlength, vneg,
    vnormalize, vreflect, vscale, vsub};

verus! {

/// The recursion bound of the integrator.
pub const MAX_RAY_DEPTH: u32 = 2;

/// The offset that nudges secondary-ray origins off the surface:
/// the fixed-point representation of 1e-4.
pub const FX_ORIGIN_BIAS: i64 = 7;

/// The constant ambient term `(0.1, 0.1, 0.15)`.
pub open spec fn ambient() -> V3 {
    V3 { x: 6554, y: 6554, z: 9830 }
}

/// The grass green of the sky gradient, `(0.1, 0.6, 0.2)`.
pub open spec fn sky_green() -> V3 {
    V3 { x: 6554, y: 39322, z: 13107 }
}

/// The horizon white of the sky gradient.
pub open spec fn sky_white() -> V3 {
    V3 { x: FX_ONE as int, y: FX_ONE as int, z: FX_ONE as int }
}

/// The zenith blue of the sky gradient, `(0.3, 0.5, 1.0)`.
pub open spec fn sky_blue() -> V3 {
    V3 { x: 19661, y: 32768, z: FX_ONE as int }
}

/// Linear mix `a * (1 - k) + b * k`.
pub open spec fn mix3(a: V3, b: V3, k: int) -> V3 {
    vadd(vscale(a, fsub(FX_ONE as int, k)), vscale(b, k))
}

/// The procedural sky for a direction: `t = (y + 1) / 2` of the normalized
/// direction picks green at the bottom, white at the horizon, blue at the
/// top, with linear bands between; the result is clamped into `[0, 1]^3`
/// to absorb fixed-point rounding.
pub open spec fn sky_color(dir: V3) -> V3 {
    let d = vnormalize(dir);
    let t = fmul(fadd(d.y, FX_ONE as int), 32768);
    let c = if t < 35389 {
        mix3(sky_green(), sky_white(), fdiv(t, 36045))
    } else if t < 36045 {
        sky_white()
    } else if t < 52429 {
        mix3(sky_white(), sky_blue(), fdiv(fsub(t, 36045), 16384))
    } else {
        sky_blue()
    };
    vclamp01(c)
}

/// The secondary-ray origin: the hit point nudged along the normal, on the
/// side the outgoing direction leaves through.
pub open spec fn offset_origin_s(point: V3, normal: V3, dir_out: V3) -> V3 {
    let off = vscale(normal, FX_ORIGIN_BIAS as int);
    if vdot(dir_out, normal) < 0 {
        vsub(point, off)
    } else {
        vadd(point, off)
    }
}

/// Keeps the nearer of two optional hits; the earlier wins ties.
pub open spec fn better_hit(best: Option<HitV>, new: Option<HitV>) -> Option<HitV> {
    match new {
        Option::None => best,
        Option::Some(n) => match best {
            Option::None => Option::Some(n),
            Option::Some(b) => if n.distance < b.distance {
                Option::Some(n)
            } else {
                Option::Some(b)
            },
        },
    }
}

/// The nearest hit of the ray over the whole scene, scanned in order.
pub open spec fn scene_hit(s: Seq<CubeV>, o: V3, d: V3) -> Option<HitV>
    decreases s.len(),
{
    if s.len() == 0 {
        Option::None
    } else {
        better_hit(scene_hit(s.drop_last(), o, d), cube_hit(s.last(), o, d))
    }
}

/// Some cube blocks the shadow ray strictly nearer than the light
/// (with a margin of 0.01).
pub open spec fn shadow_blocked(s: Seq<CubeV>, so: V3, ldir: V3, ldist: int) -> bool {
    exists|i: int|
        0 <= i < s.len() && (#[trigger] cube_hit(s[i], so, ldir)) is Some && cube_hit(
            s[i],
            so,
            ldir,
        )->Some_0.distance < ldist - 655
}

/// The shadow factor at a hit: 0.2 for lights beyond 25 units (without a
/// scan), 0.8 when some cube blocks the feeler, 0 when fully lit.
pub open spec fn shadow_value(s: Seq<CubeV>, hit: HitV, light: LightV) -> int {
    let ldir = vnormalize(vsub(light.position, hit.point));
    let ldist = vlength(vsub(light.position, hit.point));
    let so = offset_origin_s(hit.point, hit.normal, ldir);
    if ldist > 1638400 {
        13107
    } else if shadow_blocked(s, so, ldir, ldist) {
        52429
    } else {
        0
    }
}

/// The light color as a fixed-point color vector.
pub open spec fn light_rgb(light: LightV) -> V3 {
    rgb_color(light.color)
}

/// The full integrator: sky on a miss or past the recursion bound;
/// otherwise Phong diffuse and specular under the shadowed, attenuated
/// light, plus recursive reflection and straight-through transparency,
/// composited under the albedo weights with the ambient term, and
/// clamped into `[0, 1]^3`.
pub open spec fn cast_ray_s(o: V3, d: V3, s: Seq<CubeV>, light: LightV, depth: int) -> V3
    decreases MAX_RAY_DEPTH as int + 1 - depth,
{
    if depth > MAX_RAY_DEPTH as int {
        sky_color(d)
    } else {
        match scene_hit(s, o, d) {
            Option::None => sky_color(d),
            Option::Some(hit) => {
                let ldir = vnormalize(vsub(light.position, hit.point));
                let ldist = vlength(vsub(light.position, hit.point));
                let sh = shadow_value(s, hit, light);
                let vis = fsub(FX_ONE as int, sh);
                let att = fdiv(
                    FX_ONE as int,
                    fadd(FX_ONE as int, fmul(fmul(ldist, ldist), 328)),
                );
                let kd = fmax(vdot(hit.normal, ldir), 0);
                let li = fmul(fmul(light.intensity, vis), att);
                let diffuse = vscale(hit.material.diffuse, fmul(kd, li));
                let specular = if depth == 0 && ldist < 524288 {
                    let view = vnormalize(vsub(o, hit.point));
                    let rdir = vreflect(vneg(ldir), hit.normal);
                    let ks = fpow(fmax(vdot(view, rdir), 0), hit.material.specular);
                    vscale(light_rgb(light), fmul(ks, li))
                } else {
                    V3 { x: 0, y: 0, z: 0 }
                };
                let reflection = if hit.material.kr > 0 && depth < MAX_RAY_DEPTH as int {
                    let rd = vnormalize(vreflect(d, hit.normal));
                    cast_ray_s(offset_origin_s(hit.point, hit.normal, rd), rd, s, light, depth + 1)
                } else {
                    V3 { x: 0, y: 0, z: 0 }
                };
                let transmission = if hit.material.kt > 0 && depth < MAX_RAY_DEPTH as int {
                    cast_ray_s(offset_origin_s(hit.point, hit.normal, d), d, s, light, depth + 1)
                } else {
                    V3 { x: 0, y: 0, z: 0 }
                };
                vclamp01(
                    vadd(
                        vadd(
                            vadd(
                                vadd(
                                    vscale(diffuse, hit.material.kd),
                                    vscale(specular, hit.material.ks),
                                ),
                                vscale(reflection, hit.material.kr),
                            ),
                            vscale(transmission, hit.material.kt),
                        ),
                        ambient(),
                    ),
                )
            },
        }
    }
}

/// Every hit the closest-hit scan reports has a strictly positive
/// distance and an exactly axis-aligned unit normal.
pub proof fn lemma_scene_hit_sound(s: Seq<CubeV>, o: V3, d: V3)
    ensures
        scene_hit(s, o, d) is Some ==> scene_hit(s, o, d)->Some_0.distance > 0,
        scene_hit(s, o, d) is Some ==> crate::cube::axis_unit_normal(
            scene_hit(s, o, d)->Some_0.normal,
        ),
    decreases s.len(),
{
    if s.len() > 0 {
        lemma_scene_hit_sound(s.drop_last(), o, d);
        crate::cube::lemma_hit_distance_positive(s.last(), o, d);
        crate::cube::lemma_hit_normal_axis_unit(s.last(), o, d);
    }
}

/// Every color the integrator returns has all components in `[0, 1]`,
/// whatever the ray, the scene, the light, and the depth.
pub proof fn lemma_cast_ray_in_range(o: V3, d: V3, s: Seq<CubeV>, light: LightV, depth: int)
    ensures
        v_in_unit_range(cast_ray_s(o, d, s, light, depth)),
{
}

/// Reflecting twice about an axis-aligned unit normal gives the direction
/// back exactly, for directions with components in `[-1, 1]`.
#[verifier::rlimit(60)]
pub proof fn lemma_reflect_involution(d: V3, n: V3)
    requires
        crate::cube::axis_unit_normal(n),
        -(FX_ONE as int) <= d.x <= FX_ONE as int,
        -(FX_ONE as int) <= d.y <= FX_ONE as int,
        -(FX_ONE as int) <= d.z <= FX_ONE as int,
    ensures
        vreflect(vreflect(d, n), n) == d,
{
    crate::fixed::lemma_fmul_zero(d.x);
    crate::fixed::lemma_fmul_zero(d.y);
    crate::fixed::lemma_fmul_zero(d.z);
    crate::fixed::lemma_fmul_zero(-d.x);
    crate::fixed::lemma_fmul_zero(-d.y);
    crate::fixed::lemma_fmul_zero(-d.z);
    crate::fixed::lemma_fmul_zero(2 * d.x);
    crate::fixed::lemma_fmul_zero(2 * d.y);
    crate::fixed::lemma_fmul_zero(2 * d.z);
    crate::fixed::lemma_fmul_zero(-2 * d.x);
    crate::fixed::lemma_fmul_zero(-2 * d.y);
    crate::fixed::lemma_fmul_zero(-2 * d.z);
    crate::fixed::lemma_fmul_one(d.x);
    crate::fixed::lemma_fmul_one(d.y);
    crate::fixed::lemma_fmul_one(d.z);
    crate::fixed::lemma_fmul_one(-d.x);
    crate::fixed::lemma_fmul_one(-d.y);
    crate::fixed::lemma_fmul_one(-d.z);
    crate::fixed::lemma_fmul_neg_one(d.x);
    crate::fixed::lemma_fmul_neg_one(d.y);
    crate::fixed::lemma_fmul_neg_one(d.z);
    crate::fixed::lemma_fmul_neg_one(-d.x);
    crate::fixed::lemma_fmul_neg_one(-d.y);
    crate::fixed::lemma_fmul_neg_one(-d.z);
    crate::fixed::lemma_fmul_double(d.x);
    crate::fixed::lemma_fmul_double(d.y);
    crate::fixed::lemma_fmul_double(d.z);
    crate::fixed::lemma_fmul_double(-d.x);
    crate::fixed::lemma_fmul_double(-d.y);
    crate::fixed::lemma_fmul_double(-d.z);
    crate::fixed::lemma_fmul_one(2 * d.x);
    crate::fixed::lemma_fmul_one(2 * d.y);
    crate::fixed::lemma_fmul_one(2 * d.z);
    crate::fixed::lemma_fmul_one(-2 * d.x);
    crate::fixed::lemma_fmul_one(-2 * d.y);
    crate::fixed::lemma_fmul_one(-2 * d.z);
    crate::fixed::lemma_fmul_neg_one(2 * d.x);
    crate::fixed::lemma_fmul_neg_one(2 * d.y);
    crate::fixed::lemma_fmul_neg_one(2 * d.z);
    crate::fixed::lemma_fmul_neg_one(-2 * d.x);
    crate::fixed::lemma_fmul_neg_one(-2 * d.y);
    crate::fixed::lemma_fmul_neg_one(-2 * d.z);
    if n == (V3 { x: FX_ONE as int, y: 0, z: 0 }) {
        assert(vdot(d, n) == d.x);
        assert(vreflect(d, n) == (V3 { x: -d.x, y: d.y, z: d.z }));
        assert(vdot(vreflect(d, n), n) == -d.x);
        assert(vreflect(vreflect(d, n), n) == d);
    } else if n == (V3 { x: -(FX_ONE as int), y: 0, z: 0 }) {
        assert(vdot(d, n) == -d.x);
        assert(vreflect(d, n) == (V3 { x: -d.x, y: d.y, z: d.z }));
        assert(vdot(vreflect(d, n), n) == d.x);
        assert(vreflect(vreflect(d, n), n) == d);
    } else if n == (V3 { x: 0, y: FX_ONE as int, z: 0 }) {
        assert(vdot(d, n) == d.y);
        assert(vreflect(d, n) == (V3 { x: d.x, y: -d.y, z: d.z }));
        assert(vdot(vreflect(d, n), n) == -d.y);
        assert(vreflect(vreflect(d, n), n) == d);
    } else if n == (V3 { x: 0, y: -(FX_ONE as int), z: 0 }) {
        assert(vdot(d, n) == -d.y);
        assert(vreflect(d, n) == (V3 { x: d.x, y: -d.y, z: d.z }));
        assert(vdot(vreflect(d, n), n) == d.y);
        assert(vreflect(vreflect(d, n), n) == d);
    } else if n == (V3 { x: 0, y: 0, z: FX_ONE as int }) {
        assert(vdot(d, n) == d.z);
        assert(vreflect(d, n) == (V3 { x: d.x, y: d.y, z: -d.z }));
        assert(vdot(vreflect(d, n), n) == -d.z);
        assert(vreflect(vreflect(d, n), n) == d);
    } else {
        assert(vdot(d, n) == -d.z);
        assert(vreflect(d, n) == (V3 { x: d.x, y: d.y, z: -d.z }));
        assert(vdot(vreflect(d, n), n) == d.z);
        assert(vreflect(vreflect(d, n), n) == d);
    }
}

/// An empty scene shows the procedural sky on every ray, at every depth.
pub proof fn lemma_empty_scene_sky(o: V3, d: V3, s: Seq<CubeV>, light: LightV, depth: int)
    requires
        s.len() == 0,
    ensures
        cast_ray_s(o, d, s, light, depth) == sky_color(d),
{
}

/// Rays whose normalized direction points high enough see the zenith blue.
pub proof fn lemma_sky_zenith_blue(dir: V3)
    requires
        vnormalize(dir).y >= 52429,
    ensures
        sky_color(dir) == sky_blue(),
{
    let ny = vnormalize(dir).y;
    assert(i64::MIN <= ny <= i64::MAX);
    let sum = fadd(ny, FX_ONE as int);
    assert(sum >= 117965);
    assert(abs_i(sum * 32768) == sum * 32768) by (nonlinear_arith)
        requires
            sum >= 0,
    ;
    assert(sum * 32768 / 65536 >= 117965 * 32768 / 65536) by (nonlinear_arith)
        requires
            sum >= 117965,
    ;
    assert(sum * 32768 / 65536 <= 0x7fff_ffff_ffff_ffff) by (nonlinear_arith)
        requires
            0 <= sum <= 0x7fff_ffff_ffff_ffff,
    ;
}

/// A fully lit diffuse surface (`albedo = [1, 0, 0, 0]`, no shadow,
/// `N . L = 1`, attenuation 1) is shaded to exactly
/// `clamp01(diffuse * intensity + ambient)`.
pub proof fn lemma_fully_lit_diffuse(
    o: V3,
    d: V3,
    s: Seq<CubeV>,
    light: LightV,
    depth: int,
    hit: HitV,
)
    requires
        0 <= depth <= MAX_RAY_DEPTH as int,
        scene_hit(s, o, d) == Option::Some(hit),
        hit.material.kd == FX_ONE as int,
        hit.material.ks == 0,
        hit.material.kr == 0,
        hit.material.kt == 0,
        shadow_value(s, hit, light) == 0,
        vdot(hit.normal, vnormalize(vsub(light.position, hit.point))) == FX_ONE as int,
        fdiv(
            FX_ONE as int,
            fadd(
                FX_ONE as int,
                fmul(
                    fmul(
                        vlength(vsub(light.position, hit.point)),
                        vlength(vsub(light.position, hit.point)),
                    ),
                    328,
                ),
            ),
        ) == FX_ONE as int,
        0 <= light.intensity <= i64::MAX,
    ensures
        cast_ray_s(o, d, s, light, depth) == vclamp01(
            vadd(vscale(hit.material.diffuse, light.intensity), ambient()),
        ),
{
    crate::fixed::lemma_fmul_one(light.intensity);
    let df = vscale(hit.material.diffuse, light.intensity);
    crate::fixed::lemma_fmul_one(df.x);
    crate::fixed::lemma_fmul_one(df.y);
    crate::fixed::lemma_fmul_one(df.z);
}

/// A purely reflective surface (`albedo = [0, 0, 1, 0]`) whose bounced ray
/// leaves the scene is shaded to exactly the sky of the bounced direction,
/// plus the ambient term, clamped.
#[verifier::rlimit(100)]
pub proof fn lemma_reflective_sky(
    o: V3,
    d: V3,
    s: Seq<CubeV>,
    light: LightV,
    depth: int,
    hit: HitV,
)
    requires
        0 <= depth < MAX_RAY_DEPTH as int,
        scene_hit(s, o, d) == Option::Some(hit),
        hit.material.kd == 0,
        hit.material.ks == 0,
        hit.material.kr == FX_ONE as int,
        hit.material.kt == 0,
        ({
            let rd = vnormalize(vreflect(d, hit.normal));
            scene_hit(s, offset_origin_s(hit.point, hit.normal, rd), rd) == Option::<HitV>::None
        }),
    ensures
        cast_ray_s(o, d, s, light, depth) == vclamp01(
            vadd(sky_color(vnormalize(vreflect(d, hit.normal))), ambient()),
        ),
{
    reveal_with_fuel(cast_ray_s, 2);
    let rd = vnormalize(vreflect(d, hit.normal));
    let bounced = cast_ray_s(
        offset_origin_s(hit.point, hit.normal, rd),
        rd,
        s,
        light,
        depth + 1,
    );
    assert(bounced == sky_color(rd));
    crate::fixed::lemma_fmul_one(bounced.x);
    crate::fixed::lemma_fmul_one(bounced.y);
    crate::fixed::lemma_fmul_one(bounced.z);
}

/// A purely transparent surface (`albedo = [0, 0, 0, 1]`) whose continuing
/// ray leaves the scene is shaded to exactly the sky of the original
/// direction, plus the ambient term, clamped.
#[verifier::rlimit(100)]
pub proof fn lemma_transparent_sky(
    o: V3,
    d: V3,
    s: Seq<CubeV>,
    light: LightV,
    depth: int,
    hit: HitV,
)
    requires
        0 <= depth < MAX_RAY_DEPTH as int,
        scene_hit(s, o, d) == Option::Some(hit),
        hit.material.kd == 0,
        hit.material.ks == 0,
        hit.material.kr == 0,
        hit.material.kt == FX_ONE as int,
        scene_hit(s, offset_origin_s(hit.point, hit.normal, d), d) == Option::<HitV>::None,
    ensures
        cast_ray_s(o, d, s, light, depth) == vclamp01(vadd(sky_color(d), ambient())),
{
    reveal_with_fuel(cast_ray_s, 2);
    let through = cast_ray_s(offset_origin_s(hit.point, hit.normal, d), d, s, light, depth + 1);
    assert(through == sky_color(d));
    crate::fixed::lemma_fmul_one(through.x);
    crate::fixed::lemma_fmul_one(through.y);
    crate::fixed::lemma_fmul_one(through.z);
}

/// The procedural sky.
pub fn procedural_sky(dir: &Fx3) -> (c: Fx3)
    ensures
        c@ == sky_color(dir@),
        v_in_unit_range(c@),
{
    let d = v3_normalize(*dir);
    let t = fx_mul(fx_add(d.y, FX_ONE), 32768);
    let green = Fx3 { x: 6554, y: 39322, z: 13107 };
    let white = Fx3 { x: FX_ONE, y: FX_ONE, z: FX_ONE };
    let blue = Fx3 { x: 19661, y: 32768, z: FX_ONE };
    let c = if t < 35389 {
        let k = fx_div(t, 36045);
        v3_add(v3_scale(green, fx_sub(FX_ONE, k)), v3_scale(white, k))
    } else if t < 36045 {
        white
    } else if t < 52429 {
        let k = fx_div(fx_sub(t, 36045), 16384);
        v3_add(v3_scale(white, fx_sub(FX_ONE, k)), v3_scale(blue, k))
    } else {
        blue
    };
    v3_clamp01(c)
}

/// The secondary-ray origin, nudged off the surface.
pub fn offset_origin(intersect: &Intersect, direction: &Fx3) -> (o: Fx3)
    ensures
        o@ == offset_origin_s(intersect@.point, intersect@.normal, direction@),
{
    let off = v3_scale(intersect.normal, FX_ORIGIN_BIAS);
    if v3_dot(*direction, intersect.normal) < 0 {
        v3_sub(intersect.point, off)
    } else {
        v3_add(intersect.point, off)
    }
}

/// The reflection of `incident` about the unit `normal`.
pub fn reflect(incident: &Fx3, normal: &Fx3) -> (r: Fx3)
    ensures
        r@ == vreflect(incident@, normal@),
{
    v3_reflect(*incident, *normal)
}

/// Scans the scene in order for the nearest hit.
fn closest_hit(objects: &Vec<Cube>, o: &Fx3, d: &Fx3) -> (res: Option<Intersect>)
    requires
        scene_wf(scene_view(objects@)),
    ensures
        res is Some <==> scene_hit(scene_view(objects@), o@, d@) is Some,
        res is Some ==> scene_hit(scene_view(objects@), o@, d@) == Some(res->Some_0@),
{
    let ghost sv = scene_view(objects@);
    let mut best: Option<Intersect> = None;
    let mut i: usize = 0;
    while i < objects.len()
        invariant
            scene_wf(sv),
            sv == scene_view(objects@),
            sv.len() == objects@.len(),
            0 <= i <= objects.len(),
            best is Some <==> scene_hit(sv.subrange(0, i as int), o@, d@) is Some,
            best is Some ==> scene_hit(sv.subrange(0, i as int), o@, d@) == Some(
                best->Some_0@,
            ),
        decreases objects.len() - i,
    {
        proof {
            assert(sv[i as int] == objects@[i as int]@);
            assert(cube_wf(sv[i as int]));
        }
        let r = objects[i].ray_intersect(o, d);
        let ghost prefix = sv.subrange(0, i as int);
        let ghost prefix1 = sv.subrange(0, i as int + 1);
        proof {
            assert(prefix1.drop_last() =~= prefix);
            assert(prefix1.last() == sv[i as int]);
            assert(scene_hit(prefix1, o@, d@) == better_hit(
                scene_hit(prefix, o@, d@),
                cube_hit(sv[i as int], o@, d@),
            ));
        }
        match r {
            Some(h) => {
                match &best {
                    Some(b) => {
                        if h.distance < b.distance {
                            best = Some(h);
                        }
                    },
                    None => {
                        best = Some(h);
                    },
                }
            },
            None => {},
        }
        i = i + 1;
    }
    proof {
        assert(sv.subrange(0, objects@.len() as int) =~= sv);
    }
    best
}

/// The shadow feeler: 0.2 beyond 25 units, 0.8 when occluded, 0 when lit.
pub fn cast_shadow(intersect: &Intersect, light: &Light, objects: &Vec<Cube>) -> (s: i64)
    requires
        scene_wf(scene_view(objects@)),
    ensures
        s as int == shadow_value(scene_view(objects@), intersect@, light@),
{
    let ghost sv = scene_view(objects@);
    let light_dir = v3_normalize(v3_sub(light.position, intersect.point));
    let light_distance = v3_length(v3_sub(light.position, intersect.point));
    let shadow_origin = offset_origin(intersect, &light_dir);
    if light_distance > 1638400 {
        return 13107;
    }
    let mut i: usize = 0;
    while i < objects.len()
        invariant
            scene_wf(sv),
            sv == scene_view(objects@),
            sv.len() == objects@.len(),
            0 <= i <= objects.len(),
            light_dir@ == vnormalize(vsub(light@.position, intersect@.point)),
            light_distance as int == vlength(vsub(light@.position, intersect@.point)),
            0 <= light_distance <= 1638400,
            shadow_origin@ == offset_origin_s(intersect@.point, intersect@.normal, light_dir@),
            forall|j: int|
                0 <= j < i ==> !((#[trigger] cube_hit(sv[j], shadow_origin@, light_dir@)) is Some
                    && cube_hit(sv[j], shadow_origin@, light_dir@)->Some_0.distance
                    < light_distance - 655),
        decreases objects.len() - i,
    {
        proof {
            assert(sv[i as int] == objects@[i as int]@);
            assert(cube_wf(sv[i as int]));
        }
        let r = objects[i].ray_intersect(&shadow_origin, &light_dir);
        match r {
            Some(h) => {
                if h.distance < light_distance - 655 {
                    proof {
                        assert(cube_hit(sv[i as int], shadow_origin@, light_dir@) is Some
                            && cube_hit(sv[i as int], shadow_origin@, light_dir@)
                            ->Some_0.distance < light_distance - 655);
                    }
                    return 52429;
                }
            },
            None => {},
        }
        i = i + 1;
    }
    0
}

/// Casts a ray into the scene and returns its color, always in `[0, 1]^3`.
pub fn cast_ray(
    ray_origin: &Fx3,
    ray_direction: &Fx3,
    objects: &Vec<Cube>,
    light: &Light,
    depth: u32,
) -> (color: Fx3)
    requires
        scene_wf(scene_view(objects@)),
    ensures
        color@ == cast_ray_s(ray_origin@, ray_direction@, scene_view(objects@), light@,
            depth as int),
        v_in_unit_range(color@),
    decreases MAX_RAY_DEPTH as int + 1 - depth as int,
{
    if depth > MAX_RAY_DEPTH {
        return procedural_sky(ray_direction);
    }
    let found = closest_hit(objects, ray_origin, ray_direction);
    let intersect = match found {
        Some(h) => h,
        None => {
            return procedural_sky(ray_direction);
        },
    };
    let light_dir = v3_normalize(v3_sub(light.position, intersect.point));
    let light_distance = v3_length(v3_sub(light.position, intersect.point));
    let sh = cast_shadow(&intersect, light, objects);
    let vis = fx_sub(FX_ONE, sh);
    let att = fx_div(FX_ONE, fx_add(FX_ONE, fx_mul(fx_mul(light_distance, light_distance), 328)));
    let kd = fx_max(v3_dot(intersect.normal, light_dir), 0);
    let li = fx_mul(fx_mul(light.intensity, vis), att);
    let diffuse = v3_scale(intersect.material.diffuse, fx_mul(kd, li));
    let specular = if depth == 0 && light_distance < 524288 {
        let view = v3_normalize(v3_sub(*ray_origin, intersect.point));
        let rdir = reflect(&v3_neg(light_dir), &intersect.normal);
        let ks = fx_pow(fx_max(v3_dot(view, rdir), 0), intersect.material.specular);
        v3_scale(crate::color::rgb8_to_color(light.color), fx_mul(ks, li))
    } else {
        Fx3 { x: 0, y: 0, z: 0 }
    };
    let reflection = if intersect.material.albedo[2] > 0 && depth < MAX_RAY_DEPTH {
        let rd = v3_normalize(reflect(ray_direction, &intersect.normal));
        let ro = offset_origin(&intersect, &rd);
        cast_ray(&ro, &rd, objects, light, depth + 1)
    } else {
        Fx3 { x: 0, y: 0, z: 0 }
    };
    let transmission = if intersect.material.albedo[3] > 0 && depth < MAX_RAY_DEPTH {
        let to = offset_origin(&intersect, ray_direction);
        cast_ray(&to, ray_direction, objects, light, depth + 1)
    } else {
        Fx3 { x: 0, y: 0, z: 0 }
    };
    v3_clamp01(
        v3_add(
            v3_add(
                v3_add(
                    v3_add(
                        v3_scale(diffuse, intersect.material.albedo[0]),
                        v3_scale(specular, intersect.material.albedo[1]),
                    ),
                    v3_scale(reflection, intersect.material.albedo[2]),
                ),
                v3_scale(transmission, intersect.material.albedo[3]),
            ),
            Fx3 { x: 6554, y: 6554, z: 9830 },
        ),
    )
}

} // verus!
