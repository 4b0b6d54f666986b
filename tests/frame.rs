use gfx_gtk::{
    AaMode, BindingSnapshot, BlitCommand, BlitSource, Error, Frame, FrameAction, FrameEvent,
    FramePhase, GlRenderCallbackStatus, PixelShader, RenderContext, ResizePlan, Viewport,
};

const TOOLKIT: BindingSnapshot = BindingSnapshot { draw_framebuffer: 3, renderbuffer: 11 };

fn err(msg: &str) -> Error {
    Error::GenericError(msg.to_string())
}

/// Runs a frame on scripted answers and returns the actions asked for.
fn run(frame: &mut Frame, first: FrameAction, events: Vec<FrameEvent>) -> Vec<FrameAction> {
    let mut acts = vec![first];
    for ev in events {
        acts.push(frame.step(ev));
    }
    acts
}

fn count(acts: &[FrameAction], f: fn(&FrameAction) -> bool) -> usize {
    acts.iter().filter(|a| f(a)).count()
}

#[test]
fn frame_starts_by_capturing() {
    let vp = Viewport::with_aa(AaMode::Single, 800, 600);
    let (frame, act) = Frame::begin(&vp);
    assert_eq!(act, FrameAction::CaptureBindings);
    assert_eq!(frame.phase, FramePhase::Capturing);
    assert_eq!((frame.target_width, frame.target_height), (800, 600));
}

#[test]
fn continue_runs_postprocess_then_blits_it() {
    let vp = Viewport::with_aa(AaMode::Multi(4), 400, 400);
    let (mut frame, first) = Frame::begin(&vp);
    let acts = run(
        &mut frame,
        first,
        vec![
            FrameEvent::Captured(TOOLKIT),
            FrameEvent::Rendered(Ok(GlRenderCallbackStatus::Continue)),
            FrameEvent::Postprocessed(Ok(GlRenderCallbackStatus::Continue)),
            FrameEvent::FramebufferBound(5),
            FrameEvent::Blitted,
            FrameEvent::CleanedUp,
        ],
    );
    assert_eq!(
        acts,
        vec![
            FrameAction::CaptureBindings,
            FrameAction::Render,
            FrameAction::Postprocess,
            FrameAction::QueryFramebuffer,
            FrameAction::Blit(BlitCommand {
                read_framebuffer: 5,
                draw_framebuffer: 3,
                renderbuffer: 11,
                width: 400,
                height: 400,
                source: BlitSource::PostprocessTarget,
            }),
            FrameAction::Cleanup,
            FrameAction::Finished,
        ]
    );
    assert_eq!(frame.phase, FramePhase::Done(Ok(BlitSource::PostprocessTarget)));
    assert!(frame.is_done());
}

#[test]
fn skip_bypasses_postprocess() {
    let vp = Viewport::with_aa(AaMode::Single, 320, 200);
    let (mut frame, first) = Frame::begin(&vp);
    let acts = run(
        &mut frame,
        first,
        vec![
            FrameEvent::Captured(TOOLKIT),
            FrameEvent::Rendered(Ok(GlRenderCallbackStatus::Skip)),
            FrameEvent::Flushed,
            FrameEvent::FramebufferBound(9),
            FrameEvent::Blitted,
            FrameEvent::CleanedUp,
        ],
    );
    assert_eq!(acts[2], FrameAction::Flush);
    assert_eq!(count(&acts, |a| *a == FrameAction::Postprocess), 0);
    match acts[4] {
        FrameAction::Blit(c) => assert_eq!(c.source, BlitSource::RenderTarget),
        ref other => panic!("expected a blit, got {:?}", other),
    }
    assert_eq!(count(&acts, |a| *a == FrameAction::Cleanup), 1);
}

#[test]
fn render_error_cleans_up_once_without_blit() {
    let vp = Viewport::with_aa(AaMode::Single, 320, 200);
    let (mut frame, first) = Frame::begin(&vp);
    let acts = run(
        &mut frame,
        first,
        vec![
            FrameEvent::Captured(TOOLKIT),
            FrameEvent::Rendered(Err(err("bad frame"))),
            FrameEvent::FramebufferBound(9),
            FrameEvent::Blitted,
            FrameEvent::CleanedUp,
            FrameEvent::CleanedUp,
        ],
    );
    assert_eq!(acts[2], FrameAction::Cleanup);
    assert_eq!(count(&acts, |a| *a == FrameAction::Cleanup), 1);
    assert_eq!(count(&acts, |a| matches!(a, FrameAction::Blit(_))), 0);
    assert_eq!(count(&acts, |a| *a == FrameAction::Postprocess), 0);
    assert_eq!(frame.phase, FramePhase::Done(Err(err("bad frame"))));
}

#[test]
fn postprocess_error_cleans_up_without_blit() {
    let vp = Viewport::with_aa(AaMode::Multi(4), 64, 64);
    let (mut frame, first) = Frame::begin(&vp);
    let acts = run(
        &mut frame,
        first,
        vec![
            FrameEvent::Captured(TOOLKIT),
            FrameEvent::Rendered(Ok(GlRenderCallbackStatus::Continue)),
            FrameEvent::Postprocessed(Err(err("shader"))),
            FrameEvent::CleanedUp,
        ],
    );
    assert_eq!(
        acts,
        vec![
            FrameAction::CaptureBindings,
            FrameAction::Render,
            FrameAction::Postprocess,
            FrameAction::Cleanup,
            FrameAction::Finished,
        ]
    );
}

#[test]
fn postprocess_skip_still_blits() {
    let vp = Viewport::with_aa(AaMode::Single, 10, 10);
    let (mut frame, first) = Frame::begin(&vp);
    let acts = run(
        &mut frame,
        first,
        vec![
            FrameEvent::Captured(TOOLKIT),
            FrameEvent::Rendered(Ok(GlRenderCallbackStatus::Continue)),
            FrameEvent::Postprocessed(Ok(GlRenderCallbackStatus::Skip)),
        ],
    );
    assert_eq!(acts[3], FrameAction::QueryFramebuffer);
}

#[test]
fn unexpected_event_waits_and_keeps_phase() {
    let vp = Viewport::with_aa(AaMode::Single, 10, 10);
    let (mut frame, _) = Frame::begin(&vp);
    assert_eq!(frame.step(FrameEvent::Blitted), FrameAction::Wait);
    assert_eq!(frame.phase, FramePhase::Capturing);
    assert_eq!(frame.step(FrameEvent::Captured(TOOLKIT)), FrameAction::Render);
    assert_eq!(frame.step(FrameEvent::Flushed), FrameAction::Wait);
    assert_eq!(frame.phase, FramePhase::Rendering(TOOLKIT));
}

#[test]
fn end_to_end_skip_at_800_by_600() {
    let (vp, req) = RenderContext::<u32>::plan_new(AaMode::Single, 800, 600).unwrap();
    assert_eq!((req.width, req.height, req.post_width, req.post_height), (800, 600, 800, 600));
    let ctx = RenderContext::new(vp, 1u32);
    let (mut frame, first) = ctx.begin_frame();
    let acts = run(
        &mut frame,
        first,
        vec![
            FrameEvent::Captured(TOOLKIT),
            FrameEvent::Rendered(Ok(GlRenderCallbackStatus::Skip)),
            FrameEvent::Flushed,
            FrameEvent::FramebufferBound(4),
            FrameEvent::Blitted,
            FrameEvent::CleanedUp,
        ],
    );
    assert_eq!(
        acts[4],
        FrameAction::Blit(BlitCommand {
            read_framebuffer: 4,
            draw_framebuffer: 3,
            renderbuffer: 11,
            width: 800,
            height: 600,
            source: BlitSource::RenderTarget,
        })
    );
}

#[test]
fn end_to_end_msaa_at_400_by_400() {
    let (vp, req) = RenderContext::<u32>::plan_new(AaMode::Multi(4), 400, 400).unwrap();
    assert_eq!(req.aa, AaMode::Multi(4));
    assert_eq!(PixelShader::for_aa(vp.aa), PixelShader::Resolve4x);
    let ctx = RenderContext::new(vp, 1u32);
    let (mut frame, first) = ctx.begin_frame();
    let acts = run(
        &mut frame,
        first,
        vec![
            FrameEvent::Captured(TOOLKIT),
            FrameEvent::Rendered(Ok(GlRenderCallbackStatus::Continue)),
            FrameEvent::Postprocessed(Ok(GlRenderCallbackStatus::Continue)),
            FrameEvent::FramebufferBound(4),
        ],
    );
    assert_eq!(acts[2], FrameAction::Postprocess);
    match acts[4] {
        FrameAction::Blit(c) => {
            assert_eq!(c.source, BlitSource::PostprocessTarget);
            assert_eq!((c.width, c.height), (400, 400));
        }
        ref other => panic!("expected a blit, got {:?}", other),
    }
}

#[test]
fn resize_to_same_size_keeps_targets() {
    let (vp, _) = RenderContext::<u32>::plan_new(AaMode::Single, 400, 400).unwrap();
    let ctx = RenderContext::new(vp, 7u32);
    assert!(matches!(ctx.plan_resize(400, 400), Ok(ResizePlan::Keep)));
    assert_eq!(*ctx.targets(), 7);
    assert_eq!(ctx.viewport(), vp);
}

#[test]
fn resize_mid_session_reallocates_once() {
    let (vp, _) = RenderContext::<u32>::plan_new(AaMode::Multi(4), 400, 400).unwrap();
    let mut ctx = RenderContext::new(vp, 1u32);
    let plan = match ctx.plan_resize(800, 800) {
        Ok(ResizePlan::Reallocate(p)) => p,
        _ => panic!("a new size must reallocate"),
    };
    let req = plan.request();
    assert_eq!((req.width, req.height, req.post_width, req.post_height), (800, 800, 800, 800));
    assert_eq!(req.aa, AaMode::Multi(4));
    let notice = ctx.commit_resize(plan, Ok(2u32)).unwrap();
    assert_eq!((notice.width, notice.height), (800, 800));
    assert_eq!(*ctx.targets(), 2);
    assert_eq!(ctx.viewport(), notice);
    // the same size again keeps the new targets
    assert!(matches!(ctx.plan_resize(800, 800), Ok(ResizePlan::Keep)));
    let (frame, _) = ctx.begin_frame();
    assert_eq!((frame.target_width, frame.target_height), (800, 800));
}

#[test]
fn failed_reallocation_keeps_last_good_state() {
    let (vp, _) = RenderContext::<u32>::plan_new(AaMode::Single, 400, 400).unwrap();
    let mut ctx = RenderContext::new(vp, 1u32);
    let plan = match ctx.plan_resize(500, 300) {
        Ok(ResizePlan::Reallocate(p)) => p,
        _ => panic!("a new size must reallocate"),
    };
    assert_eq!(plan.viewport().target_width, 500);
    let r = ctx.commit_resize(plan, Err(err("out of memory")));
    assert_eq!(r, Err(err("out of memory")));
    assert_eq!(*ctx.targets(), 1);
    assert_eq!(ctx.viewport(), vp);
}

#[test]
fn resize_to_unallocatable_size_fails() {
    let (vp, _) = RenderContext::<u32>::plan_new(AaMode::Single, 400, 400).unwrap();
    let ctx = RenderContext::new(vp, 1u32);
    assert!(matches!(ctx.plan_resize(70000, 400), Err(Error::GenericError(_))));
}

#[test]
fn new_with_unallocatable_size_fails() {
    assert!(RenderContext::<u32>::plan_new(AaMode::Single, -5, 400).is_err());
}
