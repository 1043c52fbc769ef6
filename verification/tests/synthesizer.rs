use anmrenderer::interpreter::{AnmRunner, ScriptTable};
use anmrenderer::sprite::{Rgba, Sprite, UV_ONE};
use anmrenderer::vertex::{fill_vertices, synthesize, Semantics};

fn red_sprite_32() -> Sprite {
    Sprite {
        x: 0,
        y: 0,
        z: 0,
        width: 32,
        height: 32,
        uv_left: 0,
        uv_right: UV_ONE,
        uv_top: 0,
        uv_bottom: UV_ONE,
        color: Rgba { r: 255, g: 0, b: 0, a: 255 },
    }
}

#[test]
fn fresh_sprite_is_blank_and_opaque() {
    let s = Sprite::new();
    assert_eq!((s.x, s.y, s.z), (0, 0, 0));
    assert_eq!((s.width, s.height), (0, 0));
    assert_eq!((s.uv_left, s.uv_top), (0, 0));
    assert_eq!((s.uv_right, s.uv_bottom), (UV_ONE, UV_ONE));
    assert_eq!(s.color, Rgba { r: 255, g: 255, b: 255, a: 255 });
}

#[test]
fn synthesize_is_pure() {
    let sprite = Sprite {
        x: 17,
        y: -4,
        z: 3,
        width: 15,
        height: 9,
        uv_left: 1000,
        uv_right: 2000,
        uv_top: 3000,
        uv_bottom: 4000,
        color: Rgba { r: 1, g: 2, b: 3, a: 4 },
    };
    let a = synthesize(&sprite);
    let b = synthesize(&sprite);
    assert_eq!(a, b);
}

#[test]
fn synthesize_mirrors_uv_and_color() {
    let sprite = Sprite {
        x: 10,
        y: 20,
        z: 5,
        width: 8,
        height: 6,
        uv_left: 100,
        uv_right: 200,
        uv_top: 300,
        uv_bottom: 400,
        color: Rgba { r: 9, g: 8, b: 7, a: 6 },
    };
    let q = synthesize(&sprite);
    for v in [q.v0, q.v1, q.v2, q.v3] {
        assert_eq!(v.rgba, Rgba { r: 9, g: 8, b: 7, a: 6 });
        assert_eq!(v.pos.z, 5);
    }
    assert_eq!((q.v0.uv.u, q.v0.uv.v), (100, 300));
    assert_eq!((q.v1.uv.u, q.v1.uv.v), (200, 300));
    assert_eq!((q.v2.uv.u, q.v2.uv.v), (200, 400));
    assert_eq!((q.v3.uv.u, q.v3.uv.v), (100, 400));
}

#[test]
fn synthesize_centers_the_quad() {
    let q = synthesize(&red_sprite_32());
    // 32x32, centered on the origin anchor.
    assert_eq!((q.v0.pos.x, q.v0.pos.y), (-16, -16));
    assert_eq!((q.v1.pos.x, q.v1.pos.y), (16, -16));
    assert_eq!((q.v2.pos.x, q.v2.pos.y), (16, 16));
    assert_eq!((q.v3.pos.x, q.v3.pos.y), (-16, 16));
}

#[test]
fn odd_sized_quad_still_spans_its_size() {
    let mut sprite = red_sprite_32();
    sprite.width = 33;
    sprite.height = 7;
    let q = synthesize(&sprite);
    assert_eq!(q.v1.pos.x - q.v0.pos.x, 33);
    assert_eq!(q.v2.pos.y - q.v1.pos.y, 7);
}

#[test]
fn zero_sized_sprite_still_yields_a_quad() {
    let mut sprite = red_sprite_32();
    sprite.width = 0;
    sprite.height = 0;
    let q = synthesize(&sprite);
    // All four corners collapse onto the anchor; the UV corners still
    // mirror the sprite's rect.
    assert_eq!(q.v0.pos, q.v1.pos);
    assert_eq!(q.v0.pos, q.v2.pos);
    assert_eq!(q.v0.pos, q.v3.pos);
    assert_eq!((q.v0.pos.x, q.v0.pos.y), (0, 0));
}

#[test]
fn invisible_sprite_still_yields_a_quad() {
    // Zero alpha hides the sprite; the draw is never skipped.
    let mut sprite = red_sprite_32();
    sprite.color = Rgba { r: 255, g: 0, b: 0, a: 0 };
    let q = synthesize(&sprite);
    assert_eq!(q.v0.rgba.a, 0);
    assert_eq!(q.v1.pos.x - q.v0.pos.x, 32);
}

#[test]
fn fill_vertices_overwrites_the_buffer() {
    let sprite = red_sprite_32();
    let mut buffer = synthesize(&Sprite {
        x: 99,
        y: 99,
        z: 9,
        width: 2,
        height: 2,
        uv_left: 5,
        uv_right: 6,
        uv_top: 7,
        uv_bottom: 8,
        color: Rgba { r: 1, g: 1, b: 1, a: 1 },
    });
    fill_vertices(&sprite, &mut buffer);
    assert_eq!(buffer, synthesize(&sprite));
}

#[test]
fn ten_static_ticks_keep_tint_and_size() {
    // A container whose script 3 holds a sprite at a fixed red tint and a
    // 32x32 size, static for ten ticks: each advance-plus-synthesize
    // cycle yields the same red 32x32 quad centered on the anchor.
    let table = ScriptTable::from_ids(vec![0, 3, 5]);
    let mut runner = AnmRunner::initialize(&table, 3, 0).unwrap();
    let sprite = red_sprite_32();
    for _ in 0..10 {
        runner.advance_one_tick();
        let q = synthesize(&sprite);
        for v in [q.v0, q.v1, q.v2, q.v3] {
            assert_eq!(v.rgba, Rgba { r: 255, g: 0, b: 0, a: 255 });
        }
        assert_eq!(q.v1.pos.x - q.v0.pos.x, 32);
        assert_eq!(q.v3.pos.y - q.v0.pos.y, 32);
        assert_eq!((q.v0.pos.x, q.v0.pos.y), (-16, -16));
        assert_eq!((q.v2.pos.x, q.v2.pos.y), (16, 16));
    }
    assert_eq!(runner.ticks, 10);
}

#[test]
fn vertex_layout_is_fixed() {
    assert_eq!(Semantics::Position.component_count(), 3);
    assert_eq!(Semantics::Texcoord.component_count(), 2);
    assert_eq!(Semantics::Color.component_count(), 4);
}
