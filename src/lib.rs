//! A per-frame mesh renderer core for a WebGL1-class graphics API: one shader
//! program, no vertex-array objects, 16-bit indices and three shared buffers.
//!
//! The frame planner decides, from a plain description of the scene, the exact
//! ordered list of graphics commands for a frame; the host executes it.
pub mod attributes;
pub mod frame;
pub mod indices;
pub mod renderer;
pub mod shader;
