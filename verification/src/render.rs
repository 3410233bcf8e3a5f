//! The adaptive renderer: one primary ray per pixel at full scale, one per
//! block at reduced scale, flood-filling each block with its center color.
//! The contract states the final value of every framebuffer pixel, so no
//! pixel is left unwritten, and the adaptive-quality policy that picks the
//! scale from the recent movement history.

use vstd::prelude::*;
use vstd::arithmetic::div_mod::lemma_fundamental_div_mod;
use vstd::arithmetic::div_mod::lemma_fundamental_div_mod_converse;
use crate::camera::{CamV, Camera, basis_change_s};
use crate::color::{Rgba8, color_to_rgba, rgba_of_color};
use crate::cube::{Cube, CubeV, scene_view, scene_wf};
use crate::fixed::{FX_ONE, fabs, fclamp, fdiv, fmul, fsub, fx_abs, fx_div, fx_mul, fx_sub};
use crate::framebuffer::{FbV, Framebuffer, fb_wf, lemma_pixel_index_in_range, pixel_index};
use crate::material::{Light, LightV};
use crate::shade::{cast_ray, cast_ray_s};
use crate::vec3::{Fx3, V3, v3_length, v3_normalize, v3_sub, v_in_unit_range, vlength, vnormalize,
    vsub};

verus! {

/// The perspective scale `tan(fov / 2)` for the fixed `fov = pi / 3`.
pub const FX_TAN_HALF_FOV: i64 = 37837;

/// The scale at and above which the renderer shoots one ray per pixel:
/// `scale >= 0.95`, compared exactly as `20 * scale >= 19`.
pub open spec fn full_res(scale: int) -> bool {
    20 * scale >= 19 * 65536
}

/// The reduced grid extent along one axis: `round(dim * scale)`, kept in
/// `[1, dim]`.
pub open spec fn scaled_dim(dim: int, scale: int) -> int {
    fclamp((dim * scale + 32768) / 65536, 1, dim)
}

/// The block extent along one axis: `ceil(dim / rdim)`.
pub open spec fn grid_step(dim: int, rdim: int) -> int {
    (dim + rdim - 1) / rdim
}

/// The number of block columns.
pub open spec fn grid_cols(w: int, scale: int) -> int {
    if full_res(scale) {
        w
    } else {
        scaled_dim(w, scale)
    }
}

/// The number of block rows.
pub open spec fn grid_rows(h: int, scale: int) -> int {
    if full_res(scale) {
        h
    } else {
        scaled_dim(h, scale)
    }
}

/// The block width in pixels.
pub open spec fn block_w(w: int, scale: int) -> int {
    if full_res(scale) {
        1
    } else {
        grid_step(w, scaled_dim(w, scale))
    }
}

/// The block height in pixels.
pub open spec fn block_h(h: int, scale: int) -> int {
    if full_res(scale) {
        1
    } else {
        grid_step(h, scaled_dim(h, scale))
    }
}

/// The world-space direction of the primary ray through pixel `(px, py)`
/// of a `w x h` image: screen coordinates under the aspect ratio and the
/// perspective scale, normalized, then taken through the camera basis.
pub open spec fn primary_dir(cam: CamV, w: int, h: int, px: int, py: int) -> V3 {
    let aspect = fdiv(w * 65536, h * 65536);
    let sx = fmul(
        fmul(fsub(fdiv(2 * px * 65536, w * 65536), FX_ONE as int), aspect),
        FX_TAN_HALF_FOV as int,
    );
    let sy = fmul(
        fsub(FX_ONE as int, fdiv(2 * py * 65536, h * 65536)),
        FX_TAN_HALF_FOV as int,
    );
    basis_change_s(cam, vnormalize(V3 { x: sx, y: sy, z: -(FX_ONE as int) }))
}

/// The color of the primary ray through pixel `(px, py)`.
#[verifier::opaque]
pub open spec fn primary_color(
    cam: CamV,
    s: Seq<CubeV>,
    light: LightV,
    w: int,
    h: int,
    px: int,
    py: int,
) -> V3 {
    cast_ray_s(cam.eye, primary_dir(cam, w, h, px, py), s, light, 0)
}

/// The pixel written into block `(bx, by)`: the color of the ray through
/// the block center, converted to RGBA.
#[verifier::opaque]
pub open spec fn block_pixel(
    cam: CamV,
    s: Seq<CubeV>,
    light: LightV,
    w: int,
    h: int,
    sx: int,
    sy: int,
    bx: int,
    by: int,
) -> Rgba8 {
    rgba_of_color(primary_color(cam, s, light, w, h, bx * sx + sx / 2, by * sy + sy / 2))
}

/// The grid always covers the axis: extents and steps are in range and
/// `rdim * step >= dim`.
pub proof fn lemma_grid_covers(dim: int, scale: int)
    requires
        1 <= dim <= 16384,
        0 < scale <= 65536,
    ensures
        1 <= grid_cols(dim, scale) <= dim,
        1 <= block_w(dim, scale) <= dim,
        grid_cols(dim, scale) * block_w(dim, scale) >= dim,
        grid_cols(dim, scale) * block_w(dim, scale) <= dim + grid_cols(dim, scale) - 1,
{
    if full_res(scale) {
        assert(grid_cols(dim, scale) * block_w(dim, scale) == dim) by (nonlinear_arith)
            requires
                grid_cols(dim, scale) == dim,
                block_w(dim, scale) == 1,
        ;
    } else {
        let rdim = scaled_dim(dim, scale);
        let st = grid_step(dim, rdim);
        lemma_fundamental_div_mod(dim + rdim - 1, rdim);
        let r = (dim + rdim - 1) % rdim;
        assert(dim + rdim - 1 == rdim * st + r);
        assert(rdim * st == dim + rdim - 1 - r);
        assert(rdim * st >= dim);
        assert(st >= 1) by (nonlinear_arith)
            requires
                rdim * st >= dim,
                dim >= 1,
                1 <= rdim <= dim,
        ;
        assert(st <= dim) by (nonlinear_arith)
            requires
                rdim * st <= dim + rdim - 1,
                rdim >= 1,
                dim >= 1,
        ;
    }
}

/// Each pixel coordinate lies in block `p / step`, and only there.
pub proof fn lemma_block_of_pixel(dim: int, rdim: int, st: int, p: int)
    requires
        1 <= rdim,
        1 <= st,
        rdim * st >= dim,
        0 <= p < dim,
    ensures
        0 <= p / st < rdim,
        (p / st) * st <= p < (p / st) * st + st,
{
    lemma_fundamental_div_mod(p, st);
    let q = p / st;
    let r = p % st;
    assert(p == st * q + r);
    assert(q * st <= p < q * st + st) by (nonlinear_arith)
        requires
            p == st * q + r,
            0 <= r < st,
    ;
    assert(q >= 0) by (nonlinear_arith)
        requires
            q * st <= p,
            0 <= p,
            st >= 1,
            p < q * st + st,
    ;
    assert(q < rdim) by (nonlinear_arith)
        requires
            q * st <= p,
            p < dim,
            rdim * st >= dim,
            st >= 1,
    ;
}

/// A pixel coordinate inside block `b` has `p / step == b`.
pub proof fn lemma_pixel_in_block(b: int, st: int, p: int)
    requires
        1 <= st,
        0 <= b,
        b * st <= p < b * st + st,
    ensures
        p / st == b,
{
    lemma_fundamental_div_mod_converse(p, st, b, p - b * st);
}

/// Distinct in-bounds pixel coordinates have distinct row-major indices.
pub proof fn lemma_pixel_index_injective(f: FbV, x1: int, y1: int, x2: int, y2: int)
    requires
        fb_wf(f),
        0 <= x1 < f.width,
        0 <= y1 < f.height,
        0 <= x2 < f.width,
        0 <= y2 < f.height,
        pixel_index(f, x1, y1) == pixel_index(f, x2, y2),
    ensures
        x1 == x2,
        y1 == y2,
{
    assert(y1 == y2 && x1 == x2) by (nonlinear_arith)
        requires
            y1 * f.width + x1 == y2 * f.width + x2,
            0 <= x1 < f.width,
            0 <= x2 < f.width,
            0 <= y1 < f.height,
            0 <= y2 < f.height,
    ;
}

/// Traces the primary ray through pixel `(px, py)` of a `w x h` image.
fn trace_primary(
    w: usize,
    h: usize,
    camera: &Camera,
    objects: &Vec<Cube>,
    light: &Light,
    px: usize,
    py: usize,
) -> (c: Fx3)
    requires
        scene_wf(scene_view(objects@)),
        1 <= w <= 16384,
        1 <= h <= 16384,
        px <= 2 * w,
        py <= 2 * h,
    ensures
        c@ == primary_color(camera@, scene_view(objects@), light@, w as int, h as int, px as int,
            py as int),
        v_in_unit_range(c@),
{
    let wfx: i64 = (w as i64) * 65536;
    let hfx: i64 = (h as i64) * 65536;
    let aspect = fx_div(wfx, hfx);
    let sx = fx_mul(
        fx_mul(fx_sub(fx_div((2 * px as i64) * 65536, wfx), FX_ONE), aspect),
        FX_TAN_HALF_FOV,
    );
    let sy = fx_mul(fx_sub(FX_ONE, fx_div((2 * py as i64) * 65536, hfx)), FX_TAN_HALF_FOV);
    let d_cam = v3_normalize(Fx3 { x: sx, y: sy, z: -FX_ONE });
    let d_world = camera.basis_change(&d_cam);
    let c = cast_ray(&camera.eye, &d_world, objects, light, 0);
    proof {
        reveal(primary_color);
    }
    c
}

/// Computes `round(dim * scale)` clamped into `[1, dim]`.
fn scaled_dim_ex(dim: usize, scale: i64) -> (r: usize)
    requires
        1 <= dim <= 16384,
        0 < scale <= 65536,
    ensures
        r as int == scaled_dim(dim as int, scale as int),
        1 <= r <= dim,
{
    proof {
        assert((dim as int) * (scale as int) <= 16384 * 65536) by (nonlinear_arith)
            requires
                0 <= (dim as int) <= 16384,
                0 <= (scale as int) <= 65536,
        ;
        assert((dim as int) * (scale as int) >= 0) by (nonlinear_arith)
            requires
                0 <= (dim as int),
                0 <= (scale as int),
        ;
    }
    let v = (((dim as u64) * (scale as u64)) + 32768) / 65536;
    let vi = v as usize;
    if vi < 1 {
        1
    } else if vi > dim {
        dim
    } else {
        vi
    }
}

/// Fills the rectangle `[x0, x1) x [y0, y1)` with the current color;
/// every other pixel keeps its value.
fn fill_block(fb: &mut Framebuffer, x0: usize, x1: usize, y0: usize, y1: usize)
    requires
        fb_wf(old(fb)@),
        x0 <= x1 <= old(fb)@.width,
        y0 <= y1 <= old(fb)@.height,
    ensures
        fb_wf(final(fb)@),
        final(fb).width == old(fb).width,
        final(fb).height == old(fb).height,
        final(fb)@.current == old(fb)@.current,
        forall|x: int, y: int|
            0 <= x < final(fb)@.width && 0 <= y < final(fb)@.height && x0 <= x < x1 && y0 <= y
                < y1 ==> final(fb)@.data[pixel_index(final(fb)@, x, y)] == old(fb)@.current,
        forall|x: int, y: int|
            0 <= x < final(fb)@.width && 0 <= y < final(fb)@.height && !(x0 <= x < x1 && y0 <= y
                < y1) ==> final(fb)@.data[pixel_index(final(fb)@, x, y)] == old(
                fb,
            )@.data[pixel_index(old(fb)@, x, y)],
{
    let ghost orig = fb@;
    let mut y = y0;
    while y < y1
        invariant
            fb_wf(fb@),
            orig == old(fb)@,
            fb.width == old(fb).width,
            fb.height == old(fb).height,
            fb@.current == orig.current,
            x0 <= x1 <= fb@.width,
            y0 <= y <= y1 <= fb@.height,
            forall|px: int, py: int|
                0 <= px < fb@.width && 0 <= py < fb@.height && x0 <= px < x1 && y0 <= py < y
                    ==> fb@.data[pixel_index(fb@, px, py)] == orig.current,
            forall|px: int, py: int|
                0 <= px < fb@.width && 0 <= py < fb@.height && !(x0 <= px < x1 && y0 <= py < y)
                    ==> fb@.data[pixel_index(fb@, px, py)] == orig.data[pixel_index(
                    orig,
                    px,
                    py,
                )],
        decreases y1 - y,
    {
        let mut x = x0;
        while x < x1
            invariant
                fb_wf(fb@),
                orig == old(fb)@,
                fb.width == old(fb).width,
                fb.height == old(fb).height,
                fb@.current == orig.current,
                x0 <= x <= x1 <= fb@.width,
                y0 <= y < y1 <= fb@.height,
                forall|px: int, py: int|
                    0 <= px < fb@.width && 0 <= py < fb@.height && x0 <= px < x1 && y0 <= py < y
                        ==> fb@.data[pixel_index(fb@, px, py)] == orig.current,
                forall|px: int|
                    x0 <= px < x ==> fb@.data[pixel_index(fb@, px, y as int)] == orig.current,
                forall|px: int, py: int|
                    0 <= px < fb@.width && 0 <= py < fb@.height && !(x0 <= px < x1 && y0 <= py
                        < y) && !(x0 <= px < x && py == y) ==> fb@.data[pixel_index(fb@, px, py)]
                        == orig.data[pixel_index(orig, px, py)],
            decreases x1 - x,
        {
            let ghost pre = fb@;
            fb.set_pixel(x, y);
            proof {
                lemma_pixel_index_in_range(pre, x as int, y as int);
                assert(fb@.data[pixel_index(fb@, x as int, y as int)] == orig.current);
                assert forall|px: int, py: int|
                    0 <= px < fb@.width && 0 <= py < fb@.height && !(px == x && py
                        == y) implies fb@.data[#[trigger] pixel_index(fb@, px, py)]
                    == pre.data[pixel_index(pre, px, py)] by {
                    lemma_pixel_index_in_range(pre, px, py);
                    if pixel_index(pre, px, py) == pixel_index(pre, x as int, y as int) {
                        lemma_pixel_index_injective(pre, px, py, x as int, y as int);
                    }
                }
            }
            x = x + 1;
        }
        y = y + 1;
    }
}

/// Renders one frame: at full scale one ray per pixel; otherwise one ray
/// per block, flood-filled over the block. Afterwards every pixel of the
/// framebuffer holds the color of the ray through the center of its block.
pub fn render_adaptive(
    framebuffer: &mut Framebuffer,
    objects: &Vec<Cube>,
    camera: &Camera,
    light: &Light,
    render_scale: i64,
)
    requires
        fb_wf(old(framebuffer)@),
        scene_wf(scene_view(objects@)),
        0 < render_scale <= 65536,
    ensures
        fb_wf(final(framebuffer)@),
        final(framebuffer).width == old(framebuffer).width,
        final(framebuffer).height == old(framebuffer).height,
        forall|px: int, py: int|
            0 <= px < final(framebuffer)@.width && 0 <= py < final(framebuffer)@.height
                ==> final(framebuffer)@.data[pixel_index(final(framebuffer)@, px, py)]
                == block_pixel(
                camera@,
                scene_view(objects@),
                light@,
                old(framebuffer)@.width,
                old(framebuffer)@.height,
                block_w(old(framebuffer)@.width, render_scale as int),
                block_h(old(framebuffer)@.height, render_scale as int),
                px / block_w(old(framebuffer)@.width, render_scale as int),
                py / block_h(old(framebuffer)@.height, render_scale as int),
            ),
{
    let w = framebuffer.width;
    let h = framebuffer.height;
    let full = 20 * render_scale >= 19 * 65536;
    let rw: usize;
    let stx: usize;
    let rh: usize;
    let sty: usize;
    if full {
        rw = w;
        stx = 1;
        rh = h;
        sty = 1;
    } else {
        rw = scaled_dim_ex(w, render_scale);
        stx = (w + rw - 1) / rw;
        rh = scaled_dim_ex(h, render_scale);
        sty = (h + rh - 1) / rh;
    }
    proof {
        lemma_grid_covers(w as int, render_scale as int);
        lemma_grid_covers(h as int, render_scale as int);
        assert(rw as int == grid_cols(w as int, render_scale as int));
        assert(stx as int == block_w(w as int, render_scale as int));
        assert(rh as int == grid_rows(h as int, render_scale as int));
        assert(sty as int == block_h(h as int, render_scale as int));
    }
    let ghost sv = scene_view(objects@);
    let mut by: usize = 0;
    while by < rh
        invariant
            fb_wf(framebuffer@),
            framebuffer.width == old(framebuffer).width,
            framebuffer.height == old(framebuffer).height,
            w == framebuffer.width,
            h == framebuffer.height,
            1 <= w <= 16384,
            1 <= h <= 16384,
            scene_wf(sv),
            sv == scene_view(objects@),
            0 <= by <= rh,
            1 <= rw <= w,
            1 <= stx <= w,
            1 <= rh <= h,
            1 <= sty <= h,
            rw * stx >= w,
            rw * stx <= w + rw - 1,
            rh * sty >= h,
            rh * sty <= h + rh - 1,
            rw as int == grid_cols(w as int, render_scale as int),
            stx as int == block_w(w as int, render_scale as int),
            rh as int == grid_rows(h as int, render_scale as int),
            sty as int == block_h(h as int, render_scale as int),
            forall|px: int, py: int|
                0 <= px < w && 0 <= py < h && py / (sty as int) < by
                    ==> framebuffer@.data[pixel_index(framebuffer@, px, py)] == block_pixel(
                    camera@,
                    sv,
                    light@,
                    w as int,
                    h as int,
                    stx as int,
                    sty as int,
                    px / (stx as int),
                    py / (sty as int),
                ),
        decreases rh - by,
    {
        let mut bx: usize = 0;
        while bx < rw
            invariant
                fb_wf(framebuffer@),
                framebuffer.width == old(framebuffer).width,
                framebuffer.height == old(framebuffer).height,
                w == framebuffer.width,
                h == framebuffer.height,
                1 <= w <= 16384,
                1 <= h <= 16384,
                scene_wf(sv),
                sv == scene_view(objects@),
                0 <= by < rh,
                0 <= bx <= rw,
                1 <= rw <= w,
                1 <= stx <= w,
                1 <= rh <= h,
                1 <= sty <= h,
                rw * stx >= w,
                rw * stx <= w + rw - 1,
                rh * sty >= h,
                rh * sty <= h + rh - 1,
                forall|px: int, py: int|
                    0 <= px < w && 0 <= py < h && py / (sty as int) < by
                        ==> framebuffer@.data[pixel_index(framebuffer@, px, py)] == block_pixel(
                        camera@,
                        sv,
                        light@,
                        w as int,
                        h as int,
                        stx as int,
                        sty as int,
                        px / (stx as int),
                        py / (sty as int),
                    ),
                forall|px: int, py: int|
                    0 <= px < w && 0 <= py < h && py / (sty as int) == by && px / (stx as int)
                        < bx ==> framebuffer@.data[pixel_index(framebuffer@, px, py)]
                        == block_pixel(
                        camera@,
                        sv,
                        light@,
                        w as int,
                        h as int,
                        stx as int,
                        sty as int,
                        px / (stx as int),
                        py / (sty as int),
                    ),
            decreases rw - bx,
        {
            let ghost entry = framebuffer@;
            proof {
                assert((bx as int + 1) * (stx as int) <= (rw as int) * (stx as int))
                    by (nonlinear_arith)
                    requires
                        bx as int + 1 <= rw as int,
                        stx as int >= 1,
                ;
                assert((bx as int) * (stx as int) + stx as int == (bx as int + 1) * (stx as int))
                    by (nonlinear_arith);
                assert((by as int + 1) * (sty as int) <= (rh as int) * (sty as int))
                    by (nonlinear_arith)
                    requires
                        by as int + 1 <= rh as int,
                        sty as int >= 1,
                ;
                assert((by as int) * (sty as int) + sty as int == (by as int + 1) * (sty as int))
                    by (nonlinear_arith);
            }
            let cx = bx * stx + stx / 2;
            let cy = by * sty + sty / 2;
            let color = trace_primary(w, h, camera, objects, light, cx, cy);
            let pixel = color_to_rgba(color);
            framebuffer.set_current_color(pixel);
            let xs = bx * stx;
            let x0 = if xs > w {
                w
            } else {
                xs
            };
            let xe = (bx + 1) * stx;
            let x1 = if xe > w {
                w
            } else {
                xe
            };
            let ys = by * sty;
            let y0 = if ys > h {
                h
            } else {
                ys
            };
            let ye = (by + 1) * sty;
            let y1 = if ye > h {
                h
            } else {
                ye
            };
            let ghost pre = framebuffer@;
            fill_block(framebuffer, x0, x1, y0, y1);
            proof {
                assert(pixel == block_pixel(camera@, sv, light@, w as int, h as int, stx as int,
                    sty as int, bx as int, by as int)) by {
                    reveal(block_pixel);
                }
                assert forall|px: int, py: int|
                    0 <= px < w && 0 <= py < h && py / (sty as int)
                        < by as int implies framebuffer@.data[pixel_index(framebuffer@, px, py)]
                    == block_pixel(camera@, sv, light@, w as int, h as int, stx as int,
                    sty as int, px / (stx as int), py / (sty as int)) by {
                    if y0 <= py < y1 {
                        lemma_pixel_in_block(by as int, sty as int, py);
                    }
                    assert(!(x0 <= px < x1 && y0 <= py < y1));
                    assert(framebuffer@.data[pixel_index(framebuffer@, px, py)]
                        == pre.data[pixel_index(pre, px, py)]);
                    assert(pre.data[pixel_index(pre, px, py)] == entry.data[pixel_index(
                        entry,
                        px,
                        py,
                    )]);
                    assert(entry.data[pixel_index(entry, px, py)] == block_pixel(camera@, sv,
                        light@, w as int, h as int, stx as int, sty as int, px / (stx as int), py
                        / (sty as int)));
                }
                assert forall|px: int, py: int|
                    0 <= px < w && 0 <= py < h && py / (sty as int) == by as int && px / (
                    stx as int) < bx as int + 1 implies framebuffer@.data[pixel_index(
                    framebuffer@,
                    px,
                    py,
                )] == block_pixel(camera@, sv, light@, w as int, h as int, stx as int, sty as int,
                    px / (stx as int), py / (sty as int)) by {
                    lemma_block_of_pixel(w as int, rw as int, stx as int, px);
                    lemma_block_of_pixel(h as int, rh as int, sty as int, py);
                    if px / (stx as int) == bx as int {
                        assert(x0 <= px < x1);
                        assert(y0 <= py < y1);
                        assert(framebuffer@.data[pixel_index(framebuffer@, px, py)]
                            == pre.current);
                    } else {
                        if x0 <= px < x1 {
                            lemma_pixel_in_block(bx as int, stx as int, px);
                        }
                        assert(!(x0 <= px < x1 && y0 <= py < y1));
                        assert(framebuffer@.data[pixel_index(framebuffer@, px, py)]
                            == pre.data[pixel_index(pre, px, py)]);
                        assert(pre.data[pixel_index(pre, px, py)] == entry.data[pixel_index(
                            entry,
                            px,
                            py,
                        )]);
                        assert(entry.data[pixel_index(entry, px, py)] == block_pixel(camera@, sv,
                            light@, w as int, h as int, stx as int, sty as int, px / (stx as int),
                            py / (sty as int)));
                    }
                }
            }
            bx = bx + 1;
        }
        proof {
            assert forall|px: int, py: int|
                0 <= px < w && 0 <= py < h && py / (sty as int)
                    < by as int + 1 implies framebuffer@.data[#[trigger] pixel_index(
                framebuffer@,
                px,
                py,
            )] == block_pixel(camera@, sv, light@, w as int, h as int, stx as int, sty as int, px
                / (stx as int), py / (sty as int)) by {
                lemma_block_of_pixel(w as int, rw as int, stx as int, px);
            }
        }
        by = by + 1;
    }
    proof {
        assert forall|px: int, py: int|
            0 <= px < w && 0 <= py < h implies framebuffer@.data[#[trigger] pixel_index(
            framebuffer@,
            px,
            py,
        )] == block_pixel(camera@, sv, light@, w as int, h as int, stx as int, sty as int, px / (
        stx as int), py / (sty as int)) by {
            lemma_block_of_pixel(h as int, rh as int, sty as int, py);
        }
    }
}

/// The movement predicate of the adaptive policy: the eye moved more than
/// 0.01 units, or an angle changed by more than 0.001 radians.
pub open spec fn moved_since(prev_eye: V3, prev_yaw: int, prev_pitch: int, cam: CamV) -> bool {
    ||| vlength(vsub(cam.eye, prev_eye)) > 655
    ||| fabs(fsub(cam.yaw, prev_yaw)) > 66
    ||| fabs(fsub(cam.pitch, prev_pitch)) > 66
}

/// Detects camera movement against the previous frame's pose.
pub fn camera_moved(prev_eye: Fx3, prev_yaw: i64, prev_pitch: i64, camera: &Camera) -> (m: bool)
    ensures
        m == moved_since(prev_eye@, prev_yaw as int, prev_pitch as int, camera@),
{
    let de = v3_length(v3_sub(camera.eye, prev_eye));
    let dy = fx_abs(fx_sub(camera.yaw, prev_yaw));
    let dp = fx_abs(fx_sub(camera.pitch, prev_pitch));
    de > 655 || dy > 66 || dp > 66
}

/// The render scale for the current frame: 0.125 while moving, 0.5 shortly
/// after stopping, 0.75 when still.
pub fn render_scale_for(frames_since_move: u32) -> (s: i64)
    ensures
        frames_since_move < 3 ==> s == 8192,
        3 <= frames_since_move < 8 ==> s == 32768,
        frames_since_move >= 8 ==> s == 49152,
        0 < s <= 65536,
{
    if frames_since_move < 3 {
        8192
    } else if frames_since_move < 8 {
        32768
    } else {
        49152
    }
}

} // verus!
