//! Input handling, asset bookkeeping and GPU layout rules for a small
//! free-look OpenGL renderer.
//!
//! The floating-point camera math, the GL calls and the windowing live in the
//! application around this library; what is decided on plain values lives here.

pub mod camera;
pub mod input;
pub mod texture;
pub mod model;
pub mod mesh;
pub mod shader;
