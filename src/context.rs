use vstd::prelude::*;

use crate::error::Error;
use crate::frame::{Frame, FrameAction};
use crate::viewport::{fits_texture, spec_with_aa, AaMode, SurfaceRequest, Viewport};

verus! {

/// Whether every extent of `vp` can be handed to the texture allocator.
pub open spec fn allocatable(vp: Viewport) -> bool {
    fits_texture(vp.width) && fits_texture(vp.height) && fits_texture(vp.target_width)
        && fits_texture(vp.target_height)
}

/// Whether moving from `vp` to a widget of `width` × `height` needs new
/// off-screen targets.
pub open spec fn resize_needed(vp: Viewport, width: i32, height: i32) -> bool {
    !spec_with_aa(vp.aa, width, height).same_extent(vp)
}

/// Resizing a widget to the size it already has keeps the off-screen
/// targets.
pub proof fn lemma_same_size_keeps_targets(vp: Viewport)
    requires
        vp.wf(),
    ensures
        !resize_needed(vp, vp.target_width, vp.target_height),
{
}

/// Resizing a widget to another size needs new off-screen targets.
pub proof fn lemma_new_size_reallocates(vp: Viewport, width: i32, height: i32)
    requires
        vp.wf(),
        width != vp.target_width || height != vp.target_height,
    ensures
        resize_needed(vp, width, height),
{
}

/// Once a resize to `width` × `height` has installed its viewport, a
/// second resize to the same size keeps the targets: each size change
/// reallocates once, and the installed viewport keeps the mode.
pub proof fn lemma_resize_settles(vp: Viewport, width: i32, height: i32)
    requires
        vp.wf(),
    ensures
        spec_with_aa(vp.aa, width, height).wf(),
        spec_with_aa(vp.aa, width, height).aa == vp.aa,
        !resize_needed(spec_with_aa(vp.aa, width, height), width, height),
{
}

/// A reallocation decided by [`RenderContext::plan_resize`]: the new
/// viewport and the sizes to allocate for it.
pub struct Reallocation {
    viewport: Viewport,
    request: SurfaceRequest,
}

impl Reallocation {
    #[verifier::type_invariant]
    spec fn inv(self) -> bool {
        self.viewport.wf() && allocatable(self.viewport) && self.request.for_viewport(self.viewport)
    }

    /// The viewport that the reallocation installs.
    pub closed spec fn new_viewport(self) -> Viewport {
        self.viewport
    }

    /// The sizes to allocate.
    pub closed spec fn spec_request(self) -> SurfaceRequest {
        self.request
    }

    /// The viewport that the reallocation installs.
    pub fn viewport(&self) -> (r: Viewport)
        ensures
            r == self.new_viewport(),
            r.wf(),
            allocatable(r),
    {
        proof {
            use_type_invariant(self);
        }
        self.viewport
    }

    /// The sizes to allocate: the off-screen targets at the viewport's
    /// extent and the postprocess target at the widget's.
    pub fn request(&self) -> (r: SurfaceRequest)
        ensures
            r == self.spec_request(),
            r.for_viewport(self.new_viewport()),
    {
        proof {
            use_type_invariant(self);
        }
        self.request
    }
}

/// What a resize asks of the host.
pub enum ResizePlan {
    /// The off-screen targets keep their size: nothing is reallocated
    Keep,
    /// Allocate targets of the given sizes and hand them to
    /// [`RenderContext::commit_resize`]
    Reallocate(Reallocation),
}

/// The viewport of a render context and the off-screen targets allocated
/// for it. `T` holds the targets; this type only decides when they are
/// replaced.
pub struct RenderContext<T> {
    viewport: Viewport,
    targets: T,
}

impl<T> RenderContext<T> {
    #[verifier::type_invariant]
    spec fn inv(self) -> bool {
        self.viewport.wf()
    }

    /// The current viewport.
    pub closed spec fn spec_viewport(self) -> Viewport {
        self.viewport
    }

    /// The current off-screen targets.
    pub closed spec fn spec_targets(self) -> T {
        self.targets
    }

    /// Computes the viewport for a widget of `widget_width` × `widget_height`
    /// rendered under `aa`, and the sizes of the targets to allocate for it.
    /// Fails when an extent cannot be allocated.
    pub fn plan_new(aa: AaMode, widget_width: i32, widget_height: i32) -> (r: Result<
        (Viewport, SurfaceRequest),
        Error,
    >)
        ensures
            r is Ok <==> allocatable(spec_with_aa(aa, widget_width, widget_height)),
            r matches Ok((vp, req)) ==> vp == spec_with_aa(aa, widget_width, widget_height)
                && req.for_viewport(vp),
    {
        let viewport = Viewport::with_aa(aa, widget_width, widget_height);
        match viewport.surface_request() {
            Ok(req) => Ok((viewport, req)),
            Err(e) => Err(e),
        }
    }

    /// Creates the context from a viewport and the targets allocated for it.
    pub fn new(viewport: Viewport, targets: T) -> (r: RenderContext<T>)
        requires
            viewport.wf(),
        ensures
            r.spec_viewport() == viewport,
            r.spec_targets() == targets,
    {
        RenderContext { viewport, targets }
    }

    /// Returns a copy of the current viewport.
    pub fn viewport(&self) -> (r: Viewport)
        ensures
            r == self.spec_viewport(),
            r.wf(),
    {
        proof {
            use_type_invariant(self);
        }
        self.viewport
    }

    /// The current off-screen targets.
    pub fn targets(&self) -> (r: &T)
        ensures
            *r == self.spec_targets(),
    {
        &self.targets
    }

    /// Decides what a resize of the widget to `widget_width` ×
    /// `widget_height` needs. The targets are kept when the off-screen extent
    /// does not change; otherwise new ones are to be allocated, unless the
    /// new extent cannot be allocated, which fails.
    pub fn plan_resize(&self, widget_width: i32, widget_height: i32) -> (r: Result<ResizePlan, Error>)
        ensures
            !resize_needed(self.spec_viewport(), widget_width, widget_height) ==> r matches Ok(
                ResizePlan::Keep,
            ),
            resize_needed(self.spec_viewport(), widget_width, widget_height) ==> {
                let nv = spec_with_aa(self.spec_viewport().aa, widget_width, widget_height);
                &&& r is Ok <==> allocatable(nv)
                &&& r matches Ok(p) ==> (p matches ResizePlan::Reallocate(re)
                    && re.new_viewport() == nv)
            },
    {
        let new_viewport = Viewport::with_aa(self.viewport.aa, widget_width, widget_height);
        if new_viewport.width != self.viewport.width || new_viewport.height
            != self.viewport.height {
            match new_viewport.surface_request() {
                Ok(request) => Ok(
                    ResizePlan::Reallocate(Reallocation { viewport: new_viewport, request }),
                ),
                Err(e) => Err(e),
            }
        } else {
            Ok(ResizePlan::Keep)
        }
    }

    /// Installs the outcome of a planned reallocation. With new targets, they
    /// replace the current ones together with the viewport, and the new
    /// viewport is returned so that it can be forwarded to the render
    /// callback. With an allocation error, the context stays as it was and the
    /// error is returned.
    pub fn commit_resize(&mut self, plan: Reallocation, allocated: Result<T, Error>) -> (r: Result<
        Viewport,
        Error,
    >)
        ensures
            match allocated {
                Ok(t) => {
                    &&& final(self).spec_viewport() == plan.new_viewport()
                    &&& final(self).spec_targets() == t
                    &&& r == Ok::<Viewport, Error>(plan.new_viewport())
                },
                Err(e) => {
                    &&& final(self).spec_viewport() == old(self).spec_viewport()
                    &&& final(self).spec_targets() == old(self).spec_targets()
                    &&& r == Err::<Viewport, Error>(e)
                },
            },
    {
        proof {
            use_type_invariant(&plan);
        }
        match allocated {
            Ok(t) => {
                self.viewport = plan.viewport;
                self.targets = t;
                Ok(plan.viewport)
            },
            Err(e) => Err(e),
        }
    }

    /// Starts a frame on the current viewport; see [`Frame::begin`].
    pub fn begin_frame(&self) -> (r: (Frame, FrameAction))
        ensures
            r.0.phase is Capturing,
            r.0.target_width == self.spec_viewport().target_width,
            r.0.target_height == self.spec_viewport().target_height,
            r.1 == FrameAction::CaptureBindings,
    {
        Frame::begin(&self.viewport)
    }
}

} // verus!
