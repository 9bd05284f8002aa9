//! Verified core of a real-time procedural water renderer.
//!
//! A flat tessellated grid is displaced in a shader by a superposition of
//! sine waves and viewed through a freely navigable camera.  This library
//! holds the pieces that carry design weight — the camera navigation state
//! machine, the deterministic wave-parameter synthesizer, the grid mesh
//! generator, the configuration parser, and the GPU pipeline lifecycle —
//! over exact fixed-point integers (one world unit = 1_000_000 micro-units),
//! so that every operation has a proved contract.  Window creation, OpenGL
//! calls and file I/O live outside the library and exchange plain values
//! with it.

pub mod camera;
pub mod config;
pub mod fixed;
pub mod matrix;
pub mod mesh;
pub mod pipeline;
pub mod render;
pub mod vec3;
pub mod waves;
