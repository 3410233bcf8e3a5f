//! Read-only RGB texel grids with nearest-neighbor sampling at
//! normalized fixed-point coordinates.

use vstd::prelude::*;
use crate::color::{Rgb8, rgb_color, rgb8_to_color};
use crate::fixed::{FX_ONE, fclamp, fx_clamp};
use crate::vec3::{Fx3, V3, v_in_unit_range};

verus! {

/// The mathematical model of a texture.
pub struct TexV {
    pub width: int,
    pub height: int,
    pub pixels: Seq<Rgb8>,
}

/// A read-only grid of RGB texels, row-major.
pub struct Texture {
    pub width: usize,
    pub height: usize,
    pub pixels: Vec<Rgb8>,
}

impl View for Texture {
    type V = TexV;

    open spec fn view(&self) -> TexV {
        TexV { width: self.width as int, height: self.height as int, pixels: self.pixels@ }
    }
}

/// A well-formed texture: positive bounded dimensions, one texel per cell.
pub open spec fn tex_wf(t: TexV) -> bool {
    &&& 1 <= t.width <= 65536
    &&& 1 <= t.height <= 65536
    &&& t.pixels.len() == t.width * t.height
}

/// Nearest texel index along one axis: round `coord * (extent - 1)`,
/// with `coord` first clamped into `[0, 1]`.
pub open spec fn tex_axis_index(coord: int, extent: int) -> int {
    (fclamp(coord, 0, FX_ONE as int) * (extent - 1) + 32768) / 65536
}

/// The sampled texel of `t` at normalized coordinates `(u, v)`, as a
/// fixed-point color.
pub open spec fn tex_sample(t: TexV, u: int, v: int) -> V3 {
    rgb_color(t.pixels[tex_axis_index(v, t.height) * t.width + tex_axis_index(u, t.width)])
}

/// The nearest axis index is a valid index.
pub proof fn lemma_tex_axis_index_in_range(coord: int, extent: int)
    requires
        1 <= extent,
    ensures
        0 <= tex_axis_index(coord, extent) < extent,
{
    let c = fclamp(coord, 0, FX_ONE as int);
    assert(c * (extent - 1) <= 65536 * (extent - 1)) by (nonlinear_arith)
        requires
            0 <= c <= 65536,
            1 <= extent,
    ;
    assert(0 <= c * (extent - 1)) by (nonlinear_arith)
        requires
            0 <= c,
            1 <= extent,
    ;
    assert(65536 * (extent - 1) + 32768 < 65536 * extent) by (nonlinear_arith);
    assert((c * (extent - 1) + 32768) / 65536 < extent) by (nonlinear_arith)
        requires
            c * (extent - 1) + 32768 < 65536 * extent,
            0 <= c * (extent - 1),
    ;
}

impl Texture {
    /// Builds a texture from decoded pixels.
    pub fn new(width: usize, height: usize, pixels: Vec<Rgb8>) -> (t: Texture)
        requires
            1 <= width <= 65536,
            1 <= height <= 65536,
            pixels@.len() == width * height,
        ensures
            t@ == (TexV { width: width as int, height: height as int, pixels: pixels@ }),
            tex_wf(t@),
    {
        Texture { width, height, pixels }
    }

    /// Nearest-neighbor sample at normalized coordinates.
    pub fn sample(&self, u: i64, v: i64) -> (c: Fx3)
        requires
            tex_wf(self@),
        ensures
            c@ == tex_sample(self@, u as int, v as int),
            v_in_unit_range(c@),
    {
        let uc = fx_clamp(u, 0, FX_ONE);
        let vc = fx_clamp(v, 0, FX_ONE);
        proof {
            lemma_tex_axis_index_in_range(u as int, self.width as int);
            lemma_tex_axis_index_in_range(v as int, self.height as int);
            assert((uc as int) * ((self.width - 1) as int) <= 65536 * 65535) by (nonlinear_arith)
                requires
                    0 <= (uc as int) <= 65536,
                    0 <= ((self.width - 1) as int) <= 65535,
            ;
            assert((vc as int) * ((self.height - 1) as int) <= 65536 * 65535) by (nonlinear_arith)
                requires
                    0 <= (vc as int) <= 65536,
                    0 <= ((self.height - 1) as int) <= 65535,
            ;
        }
        let xi = (((uc as u128) * ((self.width - 1) as u128) + 32768) / 65536) as usize;
        let yi = (((vc as u128) * ((self.height - 1) as u128) + 32768) / 65536) as usize;
        proof {
            assert((yi as int) * (self.width as int) + (xi as int) < (self.height as int)
                * (self.width as int)) by (nonlinear_arith)
                requires
                    0 <= (xi as int) < self.width as int,
                    0 <= (yi as int) < self.height as int,
            ;
            assert((self.height as int) * (self.width as int) == (self.width as int)
                * (self.height as int)) by (nonlinear_arith);
            assert((yi as int) * (self.width as int) <= 65535 * 65536) by (nonlinear_arith)
                requires
                    0 <= (yi as int) <= 65535,
                    0 <= (self.width as int) <= 65536,
            ;
        }
        let idx = yi * self.width + xi;
        rgb8_to_color(self.pixels[idx])
    }
}

} // verus!
