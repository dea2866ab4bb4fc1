//! Verified core of a small immediate-mode 3D renderer.
//!
//! The crate generates the meshes (a UV-sphere and a flat grid) and the
//! 4x4 transform pipeline that an unverified shell feeds to a GPU each
//! frame.  All scalar quantities are carried in a signed fixed-point
//! representation (see [`fixed`]), so every contract here is exact: the
//! rounding of each operation is part of its specification.

pub mod fixed;
pub mod grid;
pub mod matrix;
pub mod projection;
pub mod render;
pub mod sphere;
pub mod state;
