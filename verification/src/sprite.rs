//! The sprite entity read by the vertex synthesizer.
//!
//! A sprite has a position (`z` is only a depth layer, not true 3D), an
//! axis-aligned size, a UV sub-rectangle into the texture atlas and an RGBA
//! tint. The animation interpreter owns and mutates the sprite; the rest of
//! the frame loop only reads it, strictly after the interpreter's tick.

use vstd::prelude::*;

verus! {

/// Fixed-point unit for texture coordinates: `UV_ONE` stands for 1.0,
/// the far edge of the atlas.
pub const UV_ONE: u32 = 65536;

/// An RGBA color, one byte per channel, normalized on the GPU side.
#[derive(Clone, Copy, Debug, PartialEq, Eq, Structural)]
pub struct Rgba {
    pub r: u8,
    pub g: u8,
    pub b: u8,
    pub a: u8,
}

/// The mutable on-screen entity whose fields a script's opcodes drive.
#[derive(Clone, Copy, Debug, PartialEq, Eq, Structural)]
pub struct Sprite {
    /// Center of the quad, in virtual-screen units.
    pub x: i16,
    pub y: i16,
    /// Depth layer only; never a true third axis.
    pub z: i16,
    /// Quad size, in virtual-screen units.
    pub width: u16,
    pub height: u16,
    /// UV sub-rectangle into the atlas, in `UV_ONE` fixed point.
    pub uv_left: u32,
    pub uv_right: u32,
    pub uv_top: u32,
    pub uv_bottom: u32,
    /// Uniform tint applied to all four vertices; zero alpha hides the
    /// quad without skipping the draw.
    pub color: Rgba,
}

impl Sprite {
    /// A fresh sprite: at the origin, no size, full-atlas UV, opaque white.
    pub fn new() -> (r: Sprite)
        ensures
            r.x == 0 && r.y == 0 && r.z == 0,
            r.width == 0 && r.height == 0,
            r.uv_left == 0 && r.uv_top == 0,
            r.uv_right == UV_ONE && r.uv_bottom == UV_ONE,
            r.color == (Rgba { r: 255, g: 255, b: 255, a: 255 }),
    {
        Sprite {
            x: 0,
            y: 0,
            z: 0,
            width: 0,
            height: 0,
            uv_left: 0,
            uv_right: UV_ONE,
            uv_top: 0,
            uv_bottom: UV_ONE,
            color: Rgba { r: 255, g: 255, b: 255, a: 255 },
        }
    }
}

} // verus!
