//! Shading parameters of a cube surface, and the point light.

use vstd::prelude::*;
use crate::color::Rgb8;
use crate::fixed::FX_ONE;
use crate::vec3::{Fx3, V3, v_in_unit_range};

verus! {

/// The mathematical model of a material.
pub struct MatV {
    /// Diffuse color, each component in `[0, 1]`.
    pub diffuse: V3,
    /// Phong exponent.
    pub specular: nat,
    /// Mixing weights for diffuse, specular, reflection, transparency.
    pub kd: int,
    pub ks: int,
    pub kr: int,
    pub kt: int,
    /// Refractive index (carried, not consulted by the integrator).
    pub refractive: int,
}

/// Immutable shading parameters of a surface.
#[derive(Clone, Copy)]
pub struct Material {
    pub diffuse: Fx3,
    pub specular: u32,
    pub albedo: [i64; 4],
    pub refractive_index: i64,
}

impl View for Material {
    type V = MatV;

    open spec fn view(&self) -> MatV {
        MatV {
            diffuse: self.diffuse@,
            specular: self.specular as nat,
            kd: self.albedo@[0] as int,
            ks: self.albedo@[1] as int,
            kr: self.albedo@[2] as int,
            kt: self.albedo@[3] as int,
            refractive: self.refractive_index as int,
        }
    }
}

/// A well-formed material: diffuse color in `[0, 1]^3`, nonnegative
/// mixing weights, refractive index at least 1.
pub open spec fn mat_wf(m: MatV) -> bool {
    &&& v_in_unit_range(m.diffuse)
    &&& 0 <= m.kd
    &&& 0 <= m.ks
    &&& 0 <= m.kr
    &&& 0 <= m.kt
    &&& m.refractive >= FX_ONE as int
}

impl Material {
    /// Builds a material from its shading parameters.
    pub fn new(diffuse: Fx3, specular: u32, albedo: [i64; 4], refractive_index: i64) -> (m:
        Material)
        ensures
            m@.diffuse == diffuse@,
            m@.specular == specular as nat,
            m@.kd == albedo@[0] as int,
            m@.ks == albedo@[1] as int,
            m@.kr == albedo@[2] as int,
            m@.kt == albedo@[3] as int,
            m@.refractive == refractive_index as int,
    {
        Material { diffuse, specular, albedo, refractive_index }
    }
}

/// The mathematical model of the light.
pub struct LightV {
    pub position: V3,
    pub color: Rgb8,
    pub intensity: int,
}

/// The single point light of the scene.
#[derive(Clone, Copy)]
pub struct Light {
    pub position: Fx3,
    pub color: Rgb8,
    pub intensity: i64,
}

impl View for Light {
    type V = LightV;

    open spec fn view(&self) -> LightV {
        LightV { position: self.position@, color: self.color, intensity: self.intensity as int }
    }
}

/// A well-formed light has nonnegative intensity.
pub open spec fn light_wf(l: LightV) -> bool {
    l.intensity >= 0
}

impl Light {
    /// Builds a light from position, 8-bit color, and intensity.
    pub fn new(position: Fx3, color: Rgb8, intensity: i64) -> (l: Light)
        requires
            intensity >= 0,
        ensures
            l@ == (LightV {
                position: position@,
                color: color,
                intensity: intensity as int,
            }),
            light_wf(l@),
    {
        Light { position, color, intensity }
    }
}

} // verus!
