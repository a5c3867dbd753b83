//! An interactive 2D scene viewer core: camera state with dirty tracking,
//! exact world/screen/viewport coordinate projection, and an input-driven
//! view controller.
//!
//! All coordinates and scales are exact rational numbers, so every projection
//! and every camera update is verified against its mathematical definition.

pub mod color;
pub mod controller;
pub mod data;
pub mod dirty_flag;
pub mod laws;
pub mod matrix;
pub mod rational;
pub mod scene_system;
