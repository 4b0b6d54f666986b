//! Hand-off protocol between an off-screen renderer and a toolkit-owned GL
//! framebuffer: sizing of the off-screen targets, the resize protocol that
//! reallocates them, the per-frame capture / render / postprocess / blit-back /
//! cleanup sequence, and the ordered lookup of GL entry points.

pub mod context;
pub mod error;
pub mod frame;
pub mod loader;
pub mod viewport;

pub use context::{Reallocation, RenderContext, ResizePlan};
pub use error::{Error, GlRenderCallbackStatus};
pub use frame::{BindingSnapshot, BlitCommand, BlitSource, Frame, FrameAction, FrameEvent, FramePhase};
pub use loader::{lookup_step, LookupStep};
pub use viewport::{AaMode, PixelShader, SurfaceRequest, Viewport};
