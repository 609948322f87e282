//! A minimal 2D rendering and scene layer.
//!
//! The crate keeps all rendering decisions in verified code: transforms,
//! vertex generation for shape primitives, colour handling, the byte layout
//! of every GPU buffer, and the synchronisation rules between CPU-side
//! mirrors and GPU-resident data. The GPU itself is an external collaborator:
//! the library records every device operation as an explicit command, and a
//! host program replays those commands through a real graphics API.
//!
//! Scalar coordinates are whole units (`i32`); values that the GPU consumes
//! as 32-bit floats are carried as their bit patterns (`u32` words), produced
//! by a small set of trusted conversions.

pub mod animation;
pub mod asset_manager;
pub mod bytes;
pub mod color;
pub mod fp;
pub mod gpu;
pub mod math;
pub mod mesh;
pub mod matrix;
pub mod player;
pub mod scene;
pub mod shape;
pub mod sprite;
pub mod texture;
pub mod transform;
pub mod ui;
pub mod vertex;
