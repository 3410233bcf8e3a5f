//! 8-bit color values and their exact conversions to and from
//! fixed-point color vectors in `[0, 1]^3`.

use vstd::prelude::*;
use crate::fixed::{FX_ONE, fclamp};
use crate::vec3::{Fx3, V3, v_in_unit_range};

verus! {

/// An 8-bit RGB texel or light color.
#[derive(Clone, Copy, Debug, PartialEq, Eq, Structural)]
pub struct Rgb8 {
    pub r: u8,
    pub g: u8,
    pub b: u8,
}

/// An 8-bit RGBA framebuffer pixel.
#[derive(Clone, Copy, Debug, PartialEq, Eq, Structural)]
pub struct Rgba8 {
    pub r: u8,
    pub g: u8,
    pub b: u8,
    pub a: u8,
}

/// An 8-bit channel as a fixed-point value in `[0, 1]`: `c * 65536 / 255`.
pub open spec fn channel_fx(c: int) -> int {
    c * 65536 / 255
}

/// An 8-bit color as a fixed-point color vector.
pub open spec fn rgb_color(c: Rgb8) -> V3 {
    V3 { x: channel_fx(c.r as int), y: channel_fx(c.g as int), z: channel_fx(c.b as int) }
}

/// A fixed-point channel as a byte: clamp into `[0, 1]`, then `* 255 / 65536`.
pub open spec fn channel_byte(v: int) -> int {
    fclamp(v, 0, FX_ONE as int) * 255 / 65536
}

/// A fixed-point color as an opaque RGBA pixel.
pub open spec fn rgba_of_color(c: V3) -> Rgba8 {
    Rgba8 {
        r: channel_byte(c.x) as u8,
        g: channel_byte(c.y) as u8,
        b: channel_byte(c.z) as u8,
        a: 255,
    }
}

/// Converts an 8-bit color to a fixed-point color vector in `[0, 1]^3`.
pub fn rgb8_to_color(c: Rgb8) -> (v: Fx3)
    ensures
        v@ == rgb_color(c),
        v_in_unit_range(v@),
{
    let r = ((c.r as u64) * 65536 / 255) as i64;
    let g = ((c.g as u64) * 65536 / 255) as i64;
    let b = ((c.b as u64) * 65536 / 255) as i64;
    Fx3 { x: r, y: g, z: b }
}

/// Converts a fixed-point color to an opaque RGBA pixel.
pub fn color_to_rgba(c: Fx3) -> (p: Rgba8)
    ensures
        p == rgba_of_color(c@),
{
    let cx = crate::fixed::fx_clamp(c.x, 0, FX_ONE);
    let cy = crate::fixed::fx_clamp(c.y, 0, FX_ONE);
    let cz = crate::fixed::fx_clamp(c.z, 0, FX_ONE);
    Rgba8 {
        r: ((cx as u64) * 255 / 65536) as u8,
        g: ((cy as u64) * 255 / 65536) as u8,
        b: ((cz as u64) * 255 / 65536) as u8,
        a: 255,
    }
}

} // verus!
