//! The render loop's frame scheduler: event handling, resize coalescing,
//! texture-layout selection and the per-frame orchestration.
//!
//! The loop has two states, `Running` and the terminal `Closing`. While
//! running, each iteration drains the window's pending events, honors at
//! most one presentation-target recreation, advances the interpreter by
//! one tick, synthesizes the quad, rebuilds the transform, selects the
//! atlas binding and describes the one blended draw of the frame. The
//! unsupported third atlas layout is a hard fault: it never reaches a
//! draw.

use vstd::prelude::*;
use crate::interpreter::AnmRunner;
use crate::mvp::{build_mvp, spec_mvp, Mat4};
use crate::sprite::Sprite;
use crate::vertex::{spec_synthesize, synthesize, Quad};

verus! {

/// A window event, as far as the loop cares about it.
#[derive(Clone, Copy, Debug, PartialEq, Eq, Structural)]
pub enum Event {
    /// The window manager asked the window to close.
    CloseRequested,
    /// The Escape key was released.
    EscapeReleased,
    /// The framebuffer changed size.
    FramebufferResized,
    /// Any other event; the loop ignores it.
    Other,
}

/// The loop's state; `Closing` is terminal.
#[derive(Clone, Copy, Debug, PartialEq, Eq, Structural)]
pub enum LoopState {
    Running,
    Closing,
}

/// The pixel layouts an atlas may use. The format defines a third,
/// array-shaped layout that the renderer does not support: it must never
/// reach the draw path.
#[derive(Clone, Copy, Debug, PartialEq, Eq, Structural)]
pub enum TextureLayout {
    /// 3-channel atlas image.
    Rgb,
    /// 4-channel atlas image.
    Rgba,
    /// Array-shaped atlas: defined by the format, unsupported here.
    RgbaArray,
}

/// An atlas actually bound for a draw: only the two supported layouts.
#[derive(Clone, Copy, Debug, PartialEq, Eq, Structural)]
pub enum BoundLayout {
    Rgb,
    Rgba,
}

/// An invariant violation inside the frame: fatal, never recovered from.
#[derive(Clone, Copy, Debug, PartialEq, Eq, Structural)]
pub enum RenderFault {
    /// The unsupported third atlas layout reached the bind step.
    UnsupportedTextureLayout,
}

/// A blending equation.
#[derive(Clone, Copy, Debug, PartialEq, Eq, Structural)]
pub enum BlendEquation {
    Additive,
    Subtract,
    ReverseSubtract,
}

/// A blending factor.
#[derive(Clone, Copy, Debug, PartialEq, Eq, Structural)]
pub enum BlendFactor {
    Zero,
    One,
    SrcAlpha,
    SrcAlphaComplement,
}

/// A complete blending configuration.
#[derive(Clone, Copy, Debug, PartialEq, Eq, Structural)]
pub struct Blending {
    pub equation: BlendEquation,
    pub src: BlendFactor,
    pub dst: BlendFactor,
}

/// The one draw call a frame issues: a triangle fan over the quad's four
/// vertices, with the frame's fixed blending.
#[derive(Clone, Copy, Debug, PartialEq, Eq, Structural)]
pub struct DrawCall {
    pub binding: BoundLayout,
    pub blending: Blending,
    /// Always the quad's four vertices; the buffer never changes shape.
    pub vertex_count: u32,
}

/// Everything a running frame hands to the GPU: whether the presentation
/// target was recreated, the synthesized vertices, the transform and the
/// draw call.
#[derive(Clone, Copy, Debug, PartialEq, Eq, Structural)]
pub struct FrameOutput {
    pub recreated_target: bool,
    pub vertices: Quad,
    pub mvp: Mat4,
    pub draw: DrawCall,
}

/// The loop's own mutable state between iterations.
pub struct Scheduler {
    pub state: LoopState,
    /// Set by resize events, honored (and cleared) at most once per
    /// iteration.
    pub resize_pending: bool,
    /// How many times the presentation target has been recreated.
    pub recreations: u64,
}

/// An event that sends the loop to `Closing`.
pub open spec fn spec_exit_event(e: Event) -> bool {
    e is CloseRequested || e is EscapeReleased
}

/// Draining the event queue: the first close request or Escape release
/// ends the loop at once (later events are not looked at); every resize
/// event seen before that merely sets the pending-resize flag.
pub open spec fn spec_poll(events: Seq<Event>, resize: bool) -> (LoopState, bool)
    decreases events.len(),
{
    if events.len() == 0 {
        (LoopState::Running, resize)
    } else if spec_exit_event(events[0]) {
        (LoopState::Closing, resize)
    } else {
        spec_poll(events.skip(1), resize || events[0] is FramebufferResized)
    }
}

/// Drain all pending window events, folding them into the loop state and
/// the pending-resize flag.
pub fn poll_events(events: &Vec<Event>, resize: bool) -> (r: (LoopState, bool))
    ensures
        r == spec_poll(events@, resize),
{
    let mut rz = resize;
    let mut i: usize = 0;
    proof {
        assert(events@.skip(0) =~= events@);
    }
    while i < events.len()
        invariant
            i <= events@.len(),
            spec_poll(events@, resize) == spec_poll(events@.skip(i as int), rz),
        decreases events@.len() - i,
    {
        let e = events[i];
        if matches!(e, Event::CloseRequested | Event::EscapeReleased) {
            return (LoopState::Closing, rz);
        }
        proof {
            assert(events@.skip(i as int).skip(1) =~= events@.skip(i as int + 1));
        }
        rz = rz || matches!(e, Event::FramebufferResized);
        i += 1;
    }
    (LoopState::Running, rz)
}

/// Draining a queue with no close request and no Escape release leaves
/// the loop running, and sets the pending-resize flag exactly when it was
/// already set or at least one resize event arrived — however many there
/// were, the flag is all that remains of them.
pub proof fn lemma_poll_without_exit(events: Seq<Event>, resize: bool)
    requires
        forall|i: int| 0 <= i < events.len() ==> !spec_exit_event(#[trigger] events[i]),
    ensures
        spec_poll(events, resize).0 is Running,
        spec_poll(events, resize).1 == (resize || exists|i: int|
            0 <= i < events.len() && #[trigger] events[i] is FramebufferResized),
    decreases events.len(),
{
    if events.len() > 0 {
        let rest = events.skip(1);
        assert(forall|i: int| 0 <= i < rest.len() ==> !spec_exit_event(#[trigger] rest[i]))
            by {
            assert(forall|i: int| 0 <= i < rest.len() ==> #[trigger] rest[i] == events[i + 1]);
        }
        lemma_poll_without_exit(rest, resize || events[0] is FramebufferResized);
        if exists|i: int| 0 <= i < rest.len() && #[trigger] rest[i] is FramebufferResized {
            let i = choose|i: int| 0 <= i < rest.len() && #[trigger] rest[i] is FramebufferResized;
            assert(events[i + 1] is FramebufferResized);
        }
        if exists|i: int| 0 <= i < events.len() && #[trigger] events[i] is FramebufferResized {
            let i = choose|i: int|
                0 <= i < events.len() && #[trigger] events[i] is FramebufferResized;
            if i > 0 {
                assert(rest[i - 1] is FramebufferResized);
            }
        }
    }
}

/// Draining the queue ends the loop exactly when some pending event was a
/// close request or an Escape release.
pub proof fn lemma_poll_exit(events: Seq<Event>, resize: bool)
    ensures
        spec_poll(events, resize).0 is Closing <==> exists|i: int|
            0 <= i < events.len() && spec_exit_event(#[trigger] events[i]),
    decreases events.len(),
{
    if events.len() > 0 && !spec_exit_event(events[0]) {
        let rest = events.skip(1);
        lemma_poll_exit(rest, resize || events[0] is FramebufferResized);
        if exists|i: int| 0 <= i < rest.len() && spec_exit_event(#[trigger] rest[i]) {
            let i = choose|i: int| 0 <= i < rest.len() && spec_exit_event(#[trigger] rest[i]);
            assert(spec_exit_event(events[i + 1]));
        }
        if exists|i: int| 0 <= i < events.len() && spec_exit_event(#[trigger] events[i]) {
            let i = choose|i: int| 0 <= i < events.len() && spec_exit_event(#[trigger] events[i]);
            assert(i > 0);
            assert(spec_exit_event(rest[i - 1]));
        }
    }
}

/// Select the atlas binding for the draw: the two supported layouts bind
/// as themselves; the third layout is a hard fault, never ignored.
pub fn select_texture_binding(layout: TextureLayout) -> (r: Result<BoundLayout, RenderFault>)
    ensures
        r is Ok <==> !(layout is RgbaArray),
        layout is Rgb ==> r == Ok::<BoundLayout, RenderFault>(BoundLayout::Rgb),
        layout is Rgba ==> r == Ok::<BoundLayout, RenderFault>(BoundLayout::Rgba),
        layout is RgbaArray ==> r == Err::<BoundLayout, RenderFault>(
            RenderFault::UnsupportedTextureLayout,
        ),
{
    match layout {
        TextureLayout::Rgb => Ok(BoundLayout::Rgb),
        TextureLayout::Rgba => Ok(BoundLayout::Rgba),
        TextureLayout::RgbaArray => Err(RenderFault::UnsupportedTextureLayout),
    }
}

/// The frame's fixed blending: additive equation, source-alpha source
/// factor, one-minus-source-alpha destination factor.
pub open spec fn spec_frame_blending() -> Blending {
    Blending {
        equation: BlendEquation::Additive,
        src: BlendFactor::SrcAlpha,
        dst: BlendFactor::SrcAlphaComplement,
    }
}

/// Build the frame's blending configuration.
pub fn frame_blending() -> (r: Blending)
    ensures
        r == spec_frame_blending(),
{
    Blending {
        equation: BlendEquation::Additive,
        src: BlendFactor::SrcAlpha,
        dst: BlendFactor::SrcAlphaComplement,
    }
}

/// How many presentation-target recreations one honored flag causes:
/// one if it was set, none otherwise.
pub open spec fn spec_recreation_count(flag: bool) -> u64 {
    if flag {
        1u64
    } else {
        0u64
    }
}

/// What a running frame hands to the GPU for a supported atlas binding:
/// the honored resize flag, the sprite's quad, the fixed transform and
/// the one four-vertex blended draw.
pub open spec fn spec_frame_output(recreated: bool, sprite: Sprite, binding: BoundLayout) -> FrameOutput {
    FrameOutput {
        recreated_target: recreated,
        vertices: spec_synthesize(sprite),
        mvp: spec_mvp(),
        draw: DrawCall { binding, blending: spec_frame_blending(), vertex_count: 4 },
    }
}

impl Scheduler {
    /// A fresh loop: running, no resize pending, nothing recreated yet.
    pub fn new() -> (r: Scheduler)
        ensures
            r.state is Running,
            r.resize_pending == false,
            r.recreations == 0,
    {
        Scheduler { state: LoopState::Running, resize_pending: false, recreations: 0 }
    }

    /// Honor a pending resize: recreate the presentation target if and
    /// only if the flag is set, and clear it. At most one recreation per
    /// iteration, however many resize events arrived.
    pub fn take_pending_resize(&mut self) -> (r: bool)
        requires
            old(self).recreations < u64::MAX,
        ensures
            r == old(self).resize_pending,
            final(self).resize_pending == false,
            final(self).state == old(self).state,
            final(self).recreations == old(self).recreations + spec_recreation_count(r),
    {
        let r = self.resize_pending;
        self.resize_pending = false;
        if r {
            self.recreations = self.recreations + 1;
        }
        r
    }
}

/// One iteration of the render loop, in order: drain events; if the loop
/// is still running, honor at most one pending resize, advance the
/// interpreter by exactly one tick, synthesize the quad, rebuild the
/// transform, select the atlas binding and describe the blended draw.
/// `Ok(None)` means the loop reached `Closing` and drew nothing;
/// `Err` is the fatal path for the unsupported atlas layout, reached
/// before any draw call is issued.
pub fn run_frame(
    sched: &mut Scheduler,
    runner: &mut AnmRunner,
    sprite: &Sprite,
    events: &Vec<Event>,
    layout: TextureLayout,
) -> (r: Result<Option<FrameOutput>, RenderFault>)
    requires
        old(sched).state is Running,
        old(sched).recreations < u64::MAX,
        old(runner).ticks < u64::MAX,
    ensures
        final(sched).state == spec_poll(events@, old(sched).resize_pending).0,
        final(sched).state is Closing ==> r == Ok::<Option<FrameOutput>, RenderFault>(None)
            && final(sched).resize_pending == spec_poll(events@, old(sched).resize_pending).1
            && final(sched).recreations == old(sched).recreations
            && *final(runner) == *old(runner),
        final(sched).state is Running ==> final(sched).resize_pending == false
            && final(sched).recreations == old(sched).recreations
                + spec_recreation_count(spec_poll(events@, old(sched).resize_pending).1)
            && final(runner).ticks == old(runner).ticks + 1
            && final(runner).script == old(runner).script,
        final(sched).recreations <= old(sched).recreations + 1,
        r is Err <==> final(sched).state is Running && layout is RgbaArray,
        r is Err ==> r == Err::<Option<FrameOutput>, RenderFault>(
            RenderFault::UnsupportedTextureLayout,
        ),
        final(sched).state is Running && layout is Rgb ==> r
            == Ok::<Option<FrameOutput>, RenderFault>(
            Some(
                spec_frame_output(
                    spec_poll(events@, old(sched).resize_pending).1,
                    *sprite,
                    BoundLayout::Rgb,
                ),
            ),
        ),
        final(sched).state is Running && layout is Rgba ==> r
            == Ok::<Option<FrameOutput>, RenderFault>(
            Some(
                spec_frame_output(
                    spec_poll(events@, old(sched).resize_pending).1,
                    *sprite,
                    BoundLayout::Rgba,
                ),
            ),
        ),
{
    let (state, resize) = poll_events(events, sched.resize_pending);
    sched.state = state;
    sched.resize_pending = resize;
    if matches!(state, LoopState::Closing) {
        return Ok(None);
    }
    let recreated = sched.take_pending_resize();
    runner.advance_one_tick();
    let vertices = synthesize(sprite);
    let mvp = build_mvp();
    let binding = match select_texture_binding(layout) {
        Ok(b) => b,
        Err(fault) => {
            return Err(fault);
        },
    };
    let blending = frame_blending();
    Ok(
        Some(
            FrameOutput {
                recreated_target: recreated,
                vertices,
                mvp,
                draw: DrawCall { binding, blending, vertex_count: 4 },
            },
        ),
    )
}

/// A draw call is only ever bound to one of the two supported atlas
/// layouts: the unsupported third layout cannot even be named in one, so
/// the fatal path is the only way it leaves the bind step.
pub proof fn lemma_draw_binding_supported(out: FrameOutput)
    ensures
        out.draw.binding is Rgb || out.draw.binding is Rgba,
{
}

} // verus!
