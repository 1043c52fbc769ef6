//! Verified core of a sprite-animation preview renderer.
//!
//! The library models the per-frame orchestration of the preview tool:
//! turning a sprite's state into the four vertices of a textured quad,
//! building the fixed camera/projection transform, and driving the render
//! loop's state machine (event handling, resize coalescing, texture-layout
//! selection and the blended draw). The script-container parser, the opcode
//! interpreter and the GPU/window stack are external collaborators; the
//! library captures the decisions the loop makes around them.

pub mod cli;
pub mod interpreter;
pub mod mvp;
pub mod scheduler;
pub mod sprite;
pub mod vertex;
