//! The vertex synthesizer: sprite state to a four-vertex textured quad.
//!
//! Every frame the synthesizer regenerates, from sprite state alone, the
//! four vertices of a quad centered on the sprite's position, sized by its
//! width and height, with texture coordinates taken from the corners of its
//! UV sub-rectangle and a uniform tint. The vertices are ordered as a
//! triangle fan: the first vertex is the shared apex of the two triangles
//! that form the rectangle.

use vstd::prelude::*;
use crate::sprite::{Rgba, Sprite};

verus! {

/// The vertex attributes, in buffer order. The layout is fixed for the
/// lifetime of the program; only the attribute values change.
#[derive(Clone, Copy, Debug, PartialEq, Eq, Structural)]
pub enum Semantics {
    Position,
    Texcoord,
    Color,
}

impl Semantics {
    /// How many scalar components the attribute occupies in a vertex.
    pub fn component_count(&self) -> (r: usize)
        ensures
            r == spec_component_count(*self),
    {
        match self {
            Semantics::Position => 3,
            Semantics::Texcoord => 2,
            Semantics::Color => 4,
        }
    }
}

/// Component count of each vertex attribute: a 3-component position,
/// a 2-component texture coordinate, a 4-component color.
pub open spec fn spec_component_count(s: Semantics) -> int {
    match s {
        Semantics::Position => 3,
        Semantics::Texcoord => 2,
        Semantics::Color => 4,
    }
}

/// Position attribute: three signed integers, in virtual-screen units.
#[derive(Clone, Copy, Debug, PartialEq, Eq, Structural)]
pub struct Position {
    pub x: i32,
    pub y: i32,
    pub z: i32,
}

/// Texture-coordinate attribute, in `UV_ONE` fixed point.
#[derive(Clone, Copy, Debug, PartialEq, Eq, Structural)]
pub struct TexCoord {
    pub u: u32,
    pub v: u32,
}

/// One GPU vertex: position, texture coordinate, color.
#[derive(Clone, Copy, Debug, PartialEq, Eq, Structural)]
pub struct Vertex {
    pub pos: Position,
    pub uv: TexCoord,
    pub rgba: Rgba,
}

/// Exactly four vertices, in triangle-fan order: top-left (the shared
/// apex), top-right, bottom-right, bottom-left.
#[derive(Clone, Copy, Debug, PartialEq, Eq, Structural)]
pub struct Quad {
    pub v0: Vertex,
    pub v1: Vertex,
    pub v2: Vertex,
    pub v3: Vertex,
}

/// Left edge of the quad: the sprite's center minus half its width, so the
/// quad spans exactly `width` units from left to right.
pub open spec fn spec_left(s: Sprite) -> int {
    s.x - s.width as int / 2
}

pub open spec fn spec_right(s: Sprite) -> int {
    spec_left(s) + s.width as int
}

pub open spec fn spec_top(s: Sprite) -> int {
    s.y - s.height as int / 2
}

pub open spec fn spec_bottom(s: Sprite) -> int {
    spec_top(s) + s.height as int
}

/// The quad synthesized from a sprite: corners of the centered rectangle,
/// matching corners of the UV sub-rectangle, the sprite's depth layer and
/// its tint on all four vertices.
pub open spec fn spec_synthesize(s: Sprite) -> Quad {
    Quad {
        v0: Vertex {
            pos: Position { x: spec_left(s) as i32, y: spec_top(s) as i32, z: s.z as i32 },
            uv: TexCoord { u: s.uv_left, v: s.uv_top },
            rgba: s.color,
        },
        v1: Vertex {
            pos: Position { x: spec_right(s) as i32, y: spec_top(s) as i32, z: s.z as i32 },
            uv: TexCoord { u: s.uv_right, v: s.uv_top },
            rgba: s.color,
        },
        v2: Vertex {
            pos: Position { x: spec_right(s) as i32, y: spec_bottom(s) as i32, z: s.z as i32 },
            uv: TexCoord { u: s.uv_right, v: s.uv_bottom },
            rgba: s.color,
        },
        v3: Vertex {
            pos: Position { x: spec_left(s) as i32, y: spec_bottom(s) as i32, z: s.z as i32 },
            uv: TexCoord { u: s.uv_left, v: s.uv_bottom },
            rgba: s.color,
        },
    }
}

/// Synthesize the quad for the sprite's current state. Pure: the result is
/// a function of the sprite alone, with no synthesizer-local memory.
pub fn synthesize(sprite: &Sprite) -> (r: Quad)
    ensures
        r == spec_synthesize(*sprite),
{
    let half_w: i32 = (sprite.width / 2) as i32;
    let half_h: i32 = (sprite.height / 2) as i32;
    let left: i32 = sprite.x as i32 - half_w;
    let right: i32 = left + sprite.width as i32;
    let top: i32 = sprite.y as i32 - half_h;
    let bottom: i32 = top + sprite.height as i32;
    let z: i32 = sprite.z as i32;
    Quad {
        v0: Vertex {
            pos: Position { x: left, y: top, z },
            uv: TexCoord { u: sprite.uv_left, v: sprite.uv_top },
            rgba: sprite.color,
        },
        v1: Vertex {
            pos: Position { x: right, y: top, z },
            uv: TexCoord { u: sprite.uv_right, v: sprite.uv_top },
            rgba: sprite.color,
        },
        v2: Vertex {
            pos: Position { x: right, y: bottom, z },
            uv: TexCoord { u: sprite.uv_right, v: sprite.uv_bottom },
            rgba: sprite.color,
        },
        v3: Vertex {
            pos: Position { x: left, y: bottom, z },
            uv: TexCoord { u: sprite.uv_left, v: sprite.uv_bottom },
            rgba: sprite.color,
        },
    }
}

/// Write the sprite's quad into the pre-allocated, GPU-mapped destination.
/// The vertex count and layout never change; only the contents do.
pub fn fill_vertices(sprite: &Sprite, vertices: &mut Quad)
    ensures
        *final(vertices) == spec_synthesize(*sprite),
{
    *vertices = synthesize(sprite);
}

/// The synthesizer is pure: two runs over an unchanged sprite yield
/// identical vertex arrays.
pub proof fn lemma_synthesize_pure(a: Quad, b: Quad, s: Sprite)
    requires
        a == spec_synthesize(s),
        b == spec_synthesize(s),
    ensures
        a == b,
{
}

/// The synthesized quad mirrors the sprite exactly: every vertex carries
/// the sprite's tint and depth layer, the texture coordinates are the four
/// corners of the sprite's UV sub-rectangle, and the quad spans exactly
/// `width` by `height` units around the sprite's center.
pub proof fn lemma_synthesize_mirrors_sprite(s: Sprite)
    ensures
        spec_synthesize(s).v0.rgba == s.color,
        spec_synthesize(s).v1.rgba == s.color,
        spec_synthesize(s).v2.rgba == s.color,
        spec_synthesize(s).v3.rgba == s.color,
        spec_synthesize(s).v0.uv == (TexCoord { u: s.uv_left, v: s.uv_top }),
        spec_synthesize(s).v1.uv == (TexCoord { u: s.uv_right, v: s.uv_top }),
        spec_synthesize(s).v2.uv == (TexCoord { u: s.uv_right, v: s.uv_bottom }),
        spec_synthesize(s).v3.uv == (TexCoord { u: s.uv_left, v: s.uv_bottom }),
        spec_right(s) - spec_left(s) == s.width as int,
        spec_bottom(s) - spec_top(s) == s.height as int,
        spec_left(s) + spec_right(s) == 2 * s.x + (s.width as int % 2),
        spec_synthesize(s).v0.pos.z == s.z as int,
{
}

} // verus!
