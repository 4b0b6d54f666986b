use vstd::prelude::*;

use crate::error::{Error, GlRenderCallbackStatus};
use crate::viewport::Viewport;

verus! {

/// The toolkit's own GL bindings, captured before the off-screen renderer runs.
#[derive(Clone, Copy, Debug, PartialEq, Eq, Structural)]
pub struct BindingSnapshot {
    /// Name of the framebuffer bound for drawing
    pub draw_framebuffer: u32,
    /// Name of the bound renderbuffer, the toolkit framebuffer's color attachment
    pub renderbuffer: u32,
}

/// Which off-screen target holds the picture that is blitted back.
#[derive(Clone, Copy, Debug, PartialEq, Eq, Structural)]
pub enum BlitSource {
    /// The primary color target written by the render stage
    RenderTarget,
    /// The target written by the postprocess stage
    PostprocessTarget,
}

/// The final copy onto the toolkit framebuffer: bind `read_framebuffer` for
/// reading and `draw_framebuffer` for drawing, attach `renderbuffer` as the
/// draw framebuffer's first color attachment, copy the color buffer of the
/// rectangle (0, 0, width, height) onto the same rectangle with nearest
/// filtering, then flush the GL command stream.
#[derive(Clone, Copy, Debug, PartialEq, Eq, Structural)]
pub struct BlitCommand {
    /// Framebuffer left bound by the off-screen renderer
    pub read_framebuffer: u32,
    /// The toolkit's framebuffer, captured at the start of the frame
    pub draw_framebuffer: u32,
    /// The toolkit's renderbuffer, captured at the start of the frame
    pub renderbuffer: u32,
    /// Width of the copied rectangle, the widget's width
    pub width: i32,
    /// Height of the copied rectangle, the widget's height
    pub height: i32,
    /// Stage whose target is read
    pub source: BlitSource,
}

/// What the host must do next for the frame.
#[derive(Clone, Copy, Debug, PartialEq, Eq, Structural)]
pub enum FrameAction {
    /// Query the bound draw framebuffer and renderbuffer; answer `Captured`
    CaptureBindings,
    /// Invoke the render callback on the off-screen targets; answer `Rendered`
    Render,
    /// Invoke the postprocess callback; answer `Postprocessed`
    Postprocess,
    /// Flush the command encoder; answer `Flushed`
    Flush,
    /// Query the draw framebuffer bound now; answer `FramebufferBound`
    QueryFramebuffer,
    /// Perform the copy onto the toolkit framebuffer; answer `Blitted`
    Blit(BlitCommand),
    /// Release the device's transient state; answer `CleanedUp`
    Cleanup,
    /// The frame is over
    Finished,
    /// The event did not answer the pending action: nothing to do
    Wait,
}

/// What the host reports back after performing an action.
#[derive(Debug, PartialEq, Eq)]
pub enum FrameEvent {
    /// The bindings were captured
    Captured(BindingSnapshot),
    /// The render callback returned
    Rendered(Result<GlRenderCallbackStatus, Error>),
    /// The postprocess callback returned
    Postprocessed(Result<GlRenderCallbackStatus, Error>),
    /// The encoder was flushed
    Flushed,
    /// The draw framebuffer bound after rendering
    FramebufferBound(u32),
    /// The copy was performed
    Blitted,
    /// The device was cleaned up
    CleanedUp,
}

/// Where a frame stands.
#[derive(Debug, PartialEq, Eq)]
pub enum FramePhase {
    /// Waiting for the toolkit's bindings
    Capturing,
    /// Waiting for the render callback
    Rendering(BindingSnapshot),
    /// Waiting for the postprocess callback
    Postprocessing(BindingSnapshot),
    /// Waiting for the encoder flush of a frame that skipped postprocessing
    Flushing(BindingSnapshot),
    /// Waiting for the framebuffer left bound by the renderer
    Querying(BindingSnapshot, BlitSource),
    /// Waiting for the copy onto the toolkit framebuffer
    Blitting(BlitSource),
    /// Waiting for the device cleanup; holds how the frame went
    CleaningUp(Result<BlitSource, Error>),
    /// The frame is over; holds how it went
    Done(Result<BlitSource, Error>),
}

/// One frame of the hand-off between the toolkit and the off-screen renderer.
#[derive(Debug, PartialEq, Eq)]
pub struct Frame {
    /// Where the frame stands
    pub phase: FramePhase,
    /// Width of the widget client area
    pub target_width: i32,
    /// Height of the widget client area
    pub target_height: i32,
}

/// The frame that follows `f` on `ev`, and the action asked of the host.
pub open spec fn next(f: Frame, ev: FrameEvent) -> (Frame, FrameAction) {
    let go = |p: FramePhase| Frame { phase: p, ..f };
    match (f.phase, ev) {
        (FramePhase::Capturing, FrameEvent::Captured(s)) => (
            go(FramePhase::Rendering(s)),
            FrameAction::Render,
        ),
        (FramePhase::Rendering(s), FrameEvent::Rendered(Ok(GlRenderCallbackStatus::Continue))) => (
            go(FramePhase::Postprocessing(s)),
            FrameAction::Postprocess,
        ),
        (FramePhase::Rendering(s), FrameEvent::Rendered(Ok(GlRenderCallbackStatus::Skip))) => (
            go(FramePhase::Flushing(s)),
            FrameAction::Flush,
        ),
        (FramePhase::Rendering(_), FrameEvent::Rendered(Err(e))) => (
            go(FramePhase::CleaningUp(Err(e))),
            FrameAction::Cleanup,
        ),
        (FramePhase::Postprocessing(s), FrameEvent::Postprocessed(Ok(_))) => (
            go(FramePhase::Querying(s, BlitSource::PostprocessTarget)),
            FrameAction::QueryFramebuffer,
        ),
        (FramePhase::Postprocessing(_), FrameEvent::Postprocessed(Err(e))) => (
            go(FramePhase::CleaningUp(Err(e))),
            FrameAction::Cleanup,
        ),
        (FramePhase::Flushing(s), FrameEvent::Flushed) => (
            go(FramePhase::Querying(s, BlitSource::RenderTarget)),
            FrameAction::QueryFramebuffer,
        ),
        (FramePhase::Querying(s, src), FrameEvent::FramebufferBound(id)) => (
            go(FramePhase::Blitting(src)),
            FrameAction::Blit(
                BlitCommand {
                    read_framebuffer: id,
                    draw_framebuffer: s.draw_framebuffer,
                    renderbuffer: s.renderbuffer,
                    width: f.target_width,
                    height: f.target_height,
                    source: src,
                },
            ),
        ),
        (FramePhase::Blitting(src), FrameEvent::Blitted) => (
            go(FramePhase::CleaningUp(Ok(src))),
            FrameAction::Cleanup,
        ),
        (FramePhase::CleaningUp(o), FrameEvent::CleanedUp) => (
            go(FramePhase::Done(o)),
            FrameAction::Finished,
        ),
        _ => (f, FrameAction::Wait),
    }
}

/// The actions asked of the host while `f` is fed `evs` in order.
pub open spec fn actions(f: Frame, evs: Seq<FrameEvent>) -> Seq<FrameAction>
    decreases evs.len(),
{
    if evs.len() == 0 {
        seq![]
    } else {
        let (g, a) = next(f, evs[0]);
        seq![a].add(actions(g, evs.drop_first()))
    }
}

/// How many times `acts` asks for a device cleanup.
pub open spec fn cleanups(acts: Seq<FrameAction>) -> nat
    decreases acts.len(),
{
    if acts.len() == 0 {
        0
    } else {
        (if acts[0] is Cleanup {
            1nat
        } else {
            0nat
        }) + cleanups(acts.drop_first())
    }
}

/// Whether the frame has reached device cleanup.
pub open spec fn cleaned(p: FramePhase) -> bool {
    p is CleaningUp || p is Done
}

/// Whether every action of `acts` leaves the GL state alone.
pub open spec fn all_idle(acts: Seq<FrameAction>) -> bool {
    forall|i: int| 0 <= i < acts.len() ==> (acts[i] is Finished || acts[i] is Wait)
}

/// Whether the frame is on the path of a render stage that asked to skip
/// postprocessing.
pub open spec fn skipping(p: FramePhase) -> bool {
    ||| p is Flushing
    ||| (p matches FramePhase::Querying(_, src) && src == BlitSource::RenderTarget)
    ||| (p matches FramePhase::Blitting(src) && src == BlitSource::RenderTarget)
    ||| cleaned(p)
}

/// Whether the frame, in phase `p`, still holds the snapshot `s`, or has
/// used it already.
pub open spec fn keeps_snapshot(p: FramePhase, s: BindingSnapshot) -> bool {
    match p {
        FramePhase::Capturing => false,
        FramePhase::Rendering(t) => t == s,
        FramePhase::Postprocessing(t) => t == s,
        FramePhase::Flushing(t) => t == s,
        FramePhase::Querying(t, _) => t == s,
        _ => true,
    }
}

proof fn lemma_actions_unfold(f: Frame, evs: Seq<FrameEvent>)
    requires
        evs.len() > 0,
    ensures
        actions(f, evs) == seq![next(f, evs[0]).1].add(actions(next(f, evs[0]).0, evs.drop_first())),
        actions(f, evs).len() == evs.len(),
        cleanups(actions(f, evs)) == (if next(f, evs[0]).1 is Cleanup {
            1nat
        } else {
            0nat
        }) + cleanups(actions(next(f, evs[0]).0, evs.drop_first())),
    decreases evs.len(),
{
    lemma_actions_len(f, evs);
    let acts = actions(f, evs);
    let rest = actions(next(f, evs[0]).0, evs.drop_first());
    assert(acts.drop_first() =~= rest);
}

proof fn lemma_actions_len(f: Frame, evs: Seq<FrameEvent>)
    ensures
        actions(f, evs).len() == evs.len(),
    decreases evs.len(),
{
    if evs.len() > 0 {
        lemma_actions_len(next(f, evs[0]).0, evs.drop_first());
    }
}

proof fn lemma_cleaned_is_idle(f: Frame, evs: Seq<FrameEvent>)
    requires
        cleaned(f.phase),
    ensures
        all_idle(actions(f, evs)),
        cleanups(actions(f, evs)) == 0,
    decreases evs.len(),
{
    if evs.len() > 0 {
        let (g, a) = next(f, evs[0]);
        lemma_cleaned_is_idle(g, evs.drop_first());
        lemma_actions_unfold(f, evs);
    }
}

/// A frame asks for the device cleanup at most once, whatever the host
/// reports, and never again once it has asked for it.
pub proof fn lemma_cleanup_at_most_once(f: Frame, evs: Seq<FrameEvent>)
    ensures
        cleanups(actions(f, evs)) <= 1,
        cleaned(f.phase) ==> cleanups(actions(f, evs)) == 0,
    decreases evs.len(),
{
    if cleaned(f.phase) {
        lemma_cleaned_is_idle(f, evs);
    } else if evs.len() > 0 {
        let (g, a) = next(f, evs[0]);
        lemma_cleanup_at_most_once(g, evs.drop_first());
        lemma_actions_unfold(f, evs);
    }
}

/// A render callback that fails ends the frame with exactly one device
/// cleanup, and with neither a postprocess stage nor a blit onto the toolkit
/// framebuffer, whatever the host reports afterwards.
pub proof fn lemma_render_error_cleans_up_once(
    f: Frame,
    e: Error,
    evs: Seq<FrameEvent>,
)
    requires
        f.phase is Rendering,
    ensures
        ({
            let acts = actions(f, seq![FrameEvent::Rendered(Err(e))].add(evs));
            &&& cleanups(acts) == 1
            &&& forall|i: int|
                0 <= i < acts.len() ==> !(acts[i] is Blit) && !(acts[i] is Postprocess)
        }),
{
    let all = seq![FrameEvent::Rendered(Err(e))].add(evs);
    assert(all.drop_first() =~= evs);
    let (g, a) = next(f, all[0]);
    assert(a is Cleanup);
    assert(g.phase is CleaningUp);
    lemma_actions_unfold(f, all);
    lemma_cleaned_is_idle(g, evs);
}

/// The frame that `f` becomes once fed `evs` in order.
pub open spec fn after(f: Frame, evs: Seq<FrameEvent>) -> Frame
    decreases evs.len(),
{
    if evs.len() == 0 {
        f
    } else {
        after(next(f, evs[0]).0, evs.drop_first())
    }
}

/// Every frame that reaches its end has asked for the device cleanup
/// exactly once, whether it was presented or dropped on an error.
pub proof fn lemma_finished_frame_cleaned_up_once(f: Frame, evs: Seq<FrameEvent>)
    requires
        !cleaned(f.phase),
        after(f, evs).phase is Done,
    ensures
        cleanups(actions(f, evs)) == 1,
    decreases evs.len(),
{
    if evs.len() > 0 {
        let (g, a) = next(f, evs[0]);
        lemma_actions_unfold(f, evs);
        if cleaned(g.phase) {
            assert(a is Cleanup);
            lemma_cleaned_is_idle(g, evs.drop_first());
        } else {
            lemma_finished_frame_cleaned_up_once(g, evs.drop_first());
        }
    }
}

proof fn lemma_skipping_path(f: Frame, evs: Seq<FrameEvent>)
    requires
        skipping(f.phase),
    ensures
        ({
            let acts = actions(f, evs);
            forall|i: int|
                0 <= i < acts.len() ==> !(acts[i] is Postprocess) && (acts[i] matches FrameAction::Blit(
                    c,
                ) ==> c.source == BlitSource::RenderTarget)
        }),
    decreases evs.len(),
{
    if evs.len() > 0 {
        let (g, a) = next(f, evs[0]);
        lemma_skipping_path(g, evs.drop_first());
        lemma_actions_unfold(f, evs);
    }
}

/// A render callback that returns `Skip` leads to an encoder flush and no
/// postprocess stage, and every blit of the frame reads the primary color
/// target.
pub proof fn lemma_skip_bypasses_postprocess(f: Frame, evs: Seq<FrameEvent>)
    requires
        f.phase is Rendering,
    ensures
        ({
            let acts = actions(
                f,
                seq![FrameEvent::Rendered(Ok(GlRenderCallbackStatus::Skip))].add(evs),
            );
            &&& acts[0] == FrameAction::Flush
            &&& forall|i: int|
                0 <= i < acts.len() ==> !(acts[i] is Postprocess) && (acts[i] matches FrameAction::Blit(
                    c,
                ) ==> c.source == BlitSource::RenderTarget)
        }),
{
    let all = seq![FrameEvent::Rendered(Ok(GlRenderCallbackStatus::Skip))].add(evs);
    assert(all.drop_first() =~= evs);
    let (g, a) = next(f, all[0]);
    assert(g.phase is Flushing);
    lemma_actions_unfold(f, all);
    lemma_skipping_path(g, evs);
}

/// Once the toolkit's bindings are captured, every blit of the frame draws
/// into the captured framebuffer, re-attaches the captured renderbuffer and
/// copies the whole widget area.
pub proof fn lemma_blit_restores_bindings(f: Frame, s: BindingSnapshot, evs: Seq<FrameEvent>)
    requires
        keeps_snapshot(f.phase, s),
    ensures
        ({
            let acts = actions(f, evs);
            forall|i: int|
                0 <= i < acts.len() ==> (#[trigger] acts[i] matches FrameAction::Blit(c) ==> {
                    &&& c.draw_framebuffer == s.draw_framebuffer
                    &&& c.renderbuffer == s.renderbuffer
                    &&& c.width == f.target_width
                    &&& c.height == f.target_height
                })
        }),
    decreases evs.len(),
{
    if evs.len() > 0 {
        let (g, a) = next(f, evs[0]);
        lemma_blit_restores_bindings(g, s, evs.drop_first());
        lemma_actions_unfold(f, evs);
    }
}

impl Frame {
    /// Starts a frame for `viewport`; the first action captures the
    /// toolkit's bindings, before anything else touches them.
    pub fn begin(viewport: &Viewport) -> (r: (Frame, FrameAction))
        ensures
            r.0 == (Frame {
                phase: FramePhase::Capturing,
                target_width: viewport.target_width,
                target_height: viewport.target_height,
            }),
            r.1 == FrameAction::CaptureBindings,
    {
        (
            Frame {
                phase: FramePhase::Capturing,
                target_width: viewport.target_width,
                target_height: viewport.target_height,
            },
            FrameAction::CaptureBindings,
        )
    }

    /// Whether the frame is over.
    pub fn is_done(&self) -> (r: bool)
        ensures
            r == (self.phase is Done),
    {
        matches!(self.phase, FramePhase::Done(_))
    }

    /// Advances the frame on the host's report `ev` and returns what the host
    /// must do next.
    pub fn step(&mut self, ev: FrameEvent) -> (r: FrameAction)
        ensures
            (*final(self), r) == next(*old(self), ev),
    {
        let mut phase = FramePhase::Capturing;
        core::mem::swap(&mut self.phase, &mut phase);
        match (phase, ev) {
            (FramePhase::Capturing, FrameEvent::Captured(s)) => {
                self.phase = FramePhase::Rendering(s);
                FrameAction::Render
            },
            (FramePhase::Rendering(s), FrameEvent::Rendered(Ok(status))) => {
                match status {
                    GlRenderCallbackStatus::Continue => {
                        self.phase = FramePhase::Postprocessing(s);
                        FrameAction::Postprocess
                    },
                    GlRenderCallbackStatus::Skip => {
                        self.phase = FramePhase::Flushing(s);
                        FrameAction::Flush
                    },
                }
            },
            (FramePhase::Rendering(_), FrameEvent::Rendered(Err(e))) => {
                self.phase = FramePhase::CleaningUp(Err(e));
                FrameAction::Cleanup
            },
            (FramePhase::Postprocessing(s), FrameEvent::Postprocessed(Ok(_))) => {
                self.phase = FramePhase::Querying(s, BlitSource::PostprocessTarget);
                FrameAction::QueryFramebuffer
            },
            (FramePhase::Postprocessing(_), FrameEvent::Postprocessed(Err(e))) => {
                self.phase = FramePhase::CleaningUp(Err(e));
                FrameAction::Cleanup
            },
            (FramePhase::Flushing(s), FrameEvent::Flushed) => {
                self.phase = FramePhase::Querying(s, BlitSource::RenderTarget);
                FrameAction::QueryFramebuffer
            },
            (FramePhase::Querying(s, src), FrameEvent::FramebufferBound(id)) => {
                self.phase = FramePhase::Blitting(src);
                FrameAction::Blit(
                    BlitCommand {
                        read_framebuffer: id,
                        draw_framebuffer: s.draw_framebuffer,
                        renderbuffer: s.renderbuffer,
                        width: self.target_width,
                        height: self.target_height,
                        source: src,
                    },
                )
            },
            (FramePhase::Blitting(src), FrameEvent::Blitted) => {
                self.phase = FramePhase::CleaningUp(Ok(src));
                FrameAction::Cleanup
            },
            (FramePhase::CleaningUp(o), FrameEvent::CleanedUp) => {
                self.phase = FramePhase::Done(o);
                FrameAction::Finished
            },
            (p, _) => {
                self.phase = p;
                FrameAction::Wait
            },
        }
    }
}

} // verus!
