//! Camera basis construction, pitch clamping, and movement.

use raytracing::camera::{Camera, FX_PITCH_LIMIT};
use raytracing::fixed::FX_ONE;
use raytracing::vec3::{v3_dot, v3_length, Fx3};

fn v(x: i64, y: i64, z: i64) -> Fx3 {
    Fx3 { x, y, z }
}

/// Lengths within ~0.005 of 1 and pairwise dots within ~0.005 of 0.
fn assert_orthonormal(cam: &Camera) {
    let tol: i64 = 350;
    assert!((v3_length(cam.forward) - FX_ONE).abs() <= tol);
    assert!((v3_length(cam.right) - FX_ONE).abs() <= tol);
    assert!((v3_length(cam.up) - FX_ONE).abs() <= tol);
    assert!(v3_dot(cam.forward, cam.right).abs() <= tol);
    assert!(v3_dot(cam.forward, cam.up).abs() <= tol);
    assert!(v3_dot(cam.right, cam.up).abs() <= tol);
}

#[test]
fn basis_orthonormal_after_operations() {
    let mut cam = Camera::new(v(0, 4 * FX_ONE, -12 * FX_ONE), 51472, 20000);
    assert_orthonormal(&cam);
    cam.rotate(3000, -8000);
    assert_orthonormal(&cam);
    cam.move_forward(FX_ONE / 2);
    assert_orthonormal(&cam);
    cam.move_right(-FX_ONE);
    assert_orthonormal(&cam);
    cam.move_up(FX_ONE);
    assert_orthonormal(&cam);
    cam.rotate(-300000, 50000);
    assert_orthonormal(&cam);
}

#[test]
fn pitch_clamped_after_any_rotations() {
    let mut cam = Camera::new(v(0, 0, 0), 0, 0);
    for _ in 0..20 {
        cam.rotate(1966, 19661);
        assert!(-FX_PITCH_LIMIT <= cam.pitch && cam.pitch <= FX_PITCH_LIMIT);
    }
    assert_eq!(cam.pitch, FX_PITCH_LIMIT);
    for _ in 0..60 {
        cam.rotate(0, -19661);
        assert!(-FX_PITCH_LIMIT <= cam.pitch && cam.pitch <= FX_PITCH_LIMIT);
    }
    assert_eq!(cam.pitch, -FX_PITCH_LIMIT);
}

#[test]
fn huge_pitch_rotation_clamps_to_limit() {
    let mut cam = Camera::new(v(0, 0, 0), 0, 0);
    cam.rotate(0, 655360);
    assert_eq!(cam.pitch, FX_PITCH_LIMIT);
    assert_orthonormal(&cam);
}

#[test]
fn movement_follows_basis() {
    let mut cam = Camera::new(v(0, 0, 0), -102944, 0);
    // forward is very nearly -Z
    assert!(cam.forward.z < -65000 && cam.forward.x.abs() < 200 && cam.forward.y == 0);
    let before = cam.eye;
    cam.move_forward(2 * FX_ONE);
    assert!(cam.eye.z < before.z - 130000);
    let y_before = cam.eye.y;
    cam.move_up(-FX_ONE);
    assert_eq!(cam.eye.y, y_before - FX_ONE);
}

#[test]
fn basis_change_maps_negative_z_to_forward() {
    let cam = Camera::new(v(0, 0, 0), 51472, 30000);
    let d = cam.basis_change(&v(0, 0, -FX_ONE));
    // the camera-space -Z axis maps (up to 1 ulp of the basis) to forward
    assert!((d.x - cam.forward.x).abs() <= 2);
    assert!((d.y - cam.forward.y).abs() <= 2);
    assert!((d.z - cam.forward.z).abs() <= 2);
}
