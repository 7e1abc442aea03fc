//! The scene, camera, lighting and input logic of a small real-time 3D
//! rendering demo, with verified contracts.
//!
//! Scalar values that the renderer hands to the GPU are IEEE-754 single
//! precision numbers.  Inside this library every such scalar is carried as
//! its 32-bit pattern (`u32`); ordering, clamping and layout logic on those
//! patterns is verified here, while the arithmetic itself is delegated to
//! the linear-algebra crate behind trusted wrappers.

pub mod algebra;
pub mod camera;
pub mod controls;
pub mod data;
pub mod fbits;
pub mod lighting;
pub mod meshes;
pub mod models;
pub mod rendering;
pub mod scene;
pub mod screen;
pub mod shaders;
pub mod spatial;
pub mod systems;
pub mod textures;
pub mod utils;
