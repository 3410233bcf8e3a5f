//! A software raytracer for a voxel diorama, built entirely on fixed-point
//! arithmetic so that every stage of the pipeline carries an exact contract:
//! ray/cube intersection with per-face UVs, Phong-style shading with bounded
//! reflection and transparency recursion, a first-person camera, and an
//! adaptive block renderer that provably writes every framebuffer pixel.
//!
//! Scalars are Q47.16 fixed-point numbers: an `i64` holding `value * 65536`.
//! Every arithmetic operation saturates at the `i64` range and is specified
//! exactly, so all contracts are stated over mathematical integers.

pub mod fixed;
pub mod trig;
pub mod vec3;
pub mod color;
pub mod material;
pub mod texture;
pub mod cube;
pub mod camera;
pub mod shade;
pub mod framebuffer;
pub mod render;
pub mod scene;
