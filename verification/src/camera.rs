//! The first-person camera: eye position, yaw and pitch as primary state,
//! and a derived basis (`forward`, `right`, `up`). The pitch is clamped to
//! `[-1.5, 1.5]` radians by every rotation, and after every operation the
//! basis equals its stated construction from yaw and pitch.

use vstd::prelude::*;
use crate::fixed::{FX_ONE, fadd, fclamp, fmul, fsub, fx_add, fx_clamp, fx_mul, fx_sub};
use crate::trig::{fcos, fsin, fx_cos, fx_sin};
use crate::vec3::{Fx3, V3, v3_add, v3_cross, v3_normalize, v3_scale, vadd, vcross, vnormalize,
    vscale};

verus! {

/// The pitch clamp bound: the fixed-point representation of 1.5 radians.
pub const FX_PITCH_LIMIT: i64 = 98304;

/// The mathematical model of a camera.
pub struct CamV {
    pub eye: V3,
    pub yaw: int,
    pub pitch: int,
    pub forward: V3,
    pub right: V3,
    pub up: V3,
}

/// The first-person camera.
pub struct Camera {
    pub eye: Fx3,
    pub yaw: i64,
    pub pitch: i64,
    pub forward: Fx3,
    pub right: Fx3,
    pub up: Fx3,
}

impl View for Camera {
    type V = CamV;

    open spec fn view(&self) -> CamV {
        CamV {
            eye: self.eye@,
            yaw: self.yaw as int,
            pitch: self.pitch as int,
            forward: self.forward@,
            right: self.right@,
            up: self.up@,
        }
    }
}

/// The world up direction.
pub open spec fn world_up() -> V3 {
    V3 { x: 0, y: FX_ONE as int, z: 0 }
}

/// The forward direction derived from yaw and pitch:
/// `(cos(pitch) cos(yaw), sin(pitch), cos(pitch) sin(yaw))`.
pub open spec fn basis_forward(yaw: int, pitch: int) -> V3 {
    let cp = fcos(pitch);
    V3 { x: fmul(cp, fcos(yaw)), y: fsin(pitch), z: fmul(cp, fsin(yaw)) }
}

/// The right direction: `normalize(forward x world_up)`.
pub open spec fn basis_right(forward: V3) -> V3 {
    vnormalize(vcross(forward, world_up()))
}

/// The up direction: `right x forward`.
pub open spec fn basis_up(right: V3, forward: V3) -> V3 {
    vcross(right, forward)
}

/// A well-formed camera: the pitch is clamped and the basis equals its
/// construction from yaw and pitch.
pub open spec fn cam_wf(c: CamV) -> bool {
    &&& -(FX_PITCH_LIMIT as int) <= c.pitch <= FX_PITCH_LIMIT as int
    &&& c.forward == basis_forward(c.yaw, c.pitch)
    &&& c.right == basis_right(c.forward)
    &&& c.up == basis_up(c.right, c.forward)
}

/// The basis change from camera space to world space:
/// `v.x * right + v.y * up - v.z * forward` (camera -Z points forward).
pub open spec fn basis_change_s(c: CamV, v: V3) -> V3 {
    V3 {
        x: fsub(fadd(fmul(v.x, c.right.x), fmul(v.y, c.up.x)), fmul(v.z, c.forward.x)),
        y: fsub(fadd(fmul(v.x, c.right.y), fmul(v.y, c.up.y)), fmul(v.z, c.forward.y)),
        z: fsub(fadd(fmul(v.x, c.right.z), fmul(v.y, c.up.z)), fmul(v.z, c.forward.z)),
    }
}

/// The camera-space `-Z` axis maps exactly to the forward vector: the
/// basis change realizes the right-handed view convention.
pub proof fn lemma_basis_change_forward(c: CamV)
    requires
        cam_wf(c),
    ensures
        basis_change_s(c, V3 { x: 0, y: 0, z: -(FX_ONE as int) }) == c.forward,
{
    crate::fixed::lemma_fmul_zero(c.right.x);
    crate::fixed::lemma_fmul_zero(c.right.y);
    crate::fixed::lemma_fmul_zero(c.right.z);
    crate::fixed::lemma_fmul_zero(c.up.x);
    crate::fixed::lemma_fmul_zero(c.up.y);
    crate::fixed::lemma_fmul_zero(c.up.z);
    crate::fixed::lemma_fmul_unit_bounds(fcos(c.pitch), fcos(c.yaw));
    crate::fixed::lemma_fmul_unit_bounds(fcos(c.pitch), fsin(c.yaw));
    crate::fixed::lemma_fmul_neg_one(c.forward.x);
    crate::fixed::lemma_fmul_neg_one(c.forward.y);
    crate::fixed::lemma_fmul_neg_one(c.forward.z);
}

impl Camera {
    /// Builds a camera at `eye` with the given yaw and pitch; the pitch is
    /// clamped and the basis derived.
    pub fn new(eye: Fx3, yaw: i64, pitch: i64) -> (c: Camera)
        ensures
            cam_wf(c@),
            c@.eye == eye@,
            c@.yaw == yaw as int,
            c@.pitch == fclamp(pitch as int, -(FX_PITCH_LIMIT as int), FX_PITCH_LIMIT as int),
    {
        let mut cam = Camera {
            eye,
            yaw,
            pitch: fx_clamp(pitch, -FX_PITCH_LIMIT, FX_PITCH_LIMIT),
            forward: Fx3 { x: 0, y: 0, z: 0 },
            right: Fx3 { x: 0, y: 0, z: 0 },
            up: Fx3 { x: 0, y: 0, z: 0 },
        };
        cam.update_basis_vectors();
        cam
    }

    /// Recomputes the orthonormal basis from the current yaw and pitch.
    pub fn update_basis_vectors(&mut self)
        ensures
            final(self).eye == old(self).eye,
            final(self).yaw == old(self).yaw,
            final(self).pitch == old(self).pitch,
            final(self)@.forward == basis_forward(old(self)@.yaw, old(self)@.pitch),
            final(self)@.right == basis_right(final(self)@.forward),
            final(self)@.up == basis_up(final(self)@.right, final(self)@.forward),
    {
        let cp = fx_cos(self.pitch);
        self.forward = Fx3 {
            x: fx_mul(cp, fx_cos(self.yaw)),
            y: fx_sin(self.pitch),
            z: fx_mul(cp, fx_sin(self.yaw)),
        };
        self.right = v3_normalize(v3_cross(self.forward, Fx3 { x: 0, y: FX_ONE, z: 0 }));
        self.up = v3_cross(self.right, self.forward);
    }

    /// Rotates the view direction; the pitch is clamped to
    /// `[-1.5, 1.5]` radians, whatever the deltas.
    pub fn rotate(&mut self, delta_yaw: i64, delta_pitch: i64)
        ensures
            cam_wf(final(self)@),
            final(self)@.eye == old(self)@.eye,
            final(self)@.yaw == fadd(old(self)@.yaw, delta_yaw as int),
            final(self)@.pitch == fclamp(
                fadd(old(self)@.pitch, delta_pitch as int),
                -(FX_PITCH_LIMIT as int),
                FX_PITCH_LIMIT as int,
            ),
    {
        self.yaw = fx_add(self.yaw, delta_yaw);
        self.pitch = fx_clamp(fx_add(self.pitch, delta_pitch), -FX_PITCH_LIMIT, FX_PITCH_LIMIT);
        self.update_basis_vectors();
    }

    /// Moves the eye along the forward direction; the basis is unchanged.
    pub fn move_forward(&mut self, distance: i64)
        requires
            cam_wf(old(self)@),
        ensures
            cam_wf(final(self)@),
            final(self)@.eye == vadd(old(self)@.eye, vscale(old(self)@.forward, distance as int)),
            final(self)@.yaw == old(self)@.yaw,
            final(self)@.pitch == old(self)@.pitch,
            final(self)@.forward == old(self)@.forward,
            final(self)@.right == old(self)@.right,
            final(self)@.up == old(self)@.up,
    {
        self.eye = v3_add(self.eye, v3_scale(self.forward, distance));
    }

    /// Moves the eye along the right direction; the basis is unchanged.
    pub fn move_right(&mut self, distance: i64)
        requires
            cam_wf(old(self)@),
        ensures
            cam_wf(final(self)@),
            final(self)@.eye == vadd(old(self)@.eye, vscale(old(self)@.right, distance as int)),
            final(self)@.yaw == old(self)@.yaw,
            final(self)@.pitch == old(self)@.pitch,
            final(self)@.forward == old(self)@.forward,
            final(self)@.right == old(self)@.right,
            final(self)@.up == old(self)@.up,
    {
        self.eye = v3_add(self.eye, v3_scale(self.right, distance));
    }

    /// Moves the eye along the world up direction; the basis is unchanged.
    pub fn move_up(&mut self, distance: i64)
        requires
            cam_wf(old(self)@),
        ensures
            cam_wf(final(self)@),
            final(self)@.eye == (V3 {
                x: old(self)@.eye.x,
                y: fadd(old(self)@.eye.y, distance as int),
                z: old(self)@.eye.z,
            }),
            final(self)@.yaw == old(self)@.yaw,
            final(self)@.pitch == old(self)@.pitch,
            final(self)@.forward == old(self)@.forward,
            final(self)@.right == old(self)@.right,
            final(self)@.up == old(self)@.up,
    {
        self.eye = Fx3 { x: self.eye.x, y: fx_add(self.eye.y, distance), z: self.eye.z };
    }

    /// Maps a camera-space direction to world space through the basis.
    pub fn basis_change(&self, v: &Fx3) -> (r: Fx3)
        ensures
            r@ == basis_change_s(self@, v@),
    {
        Fx3 {
            x: fx_sub(
                fx_add(fx_mul(v.x, self.right.x), fx_mul(v.y, self.up.x)),
                fx_mul(v.z, self.forward.x),
            ),
            y: fx_sub(
                fx_add(fx_mul(v.x, self.right.y), fx_mul(v.y, self.up.y)),
                fx_mul(v.z, self.forward.y),
            ),
            z: fx_sub(
                fx_add(fx_mul(v.x, self.right.z), fx_mul(v.y, self.up.z)),
                fx_mul(v.z, self.forward.z),
            ),
        }
    }
}

} // verus!
