use vstd::prelude::*;

verus! {

/// Failure of a construction, resize or frame step.
#[derive(Debug, PartialEq, Eq)]
pub enum Error {
    /// Any failure, carried as a human readable message
    GenericError(String),
}

impl Error {
    /// The message carried by the error.
    pub fn message(&self) -> (r: &String)
        ensures
            r@ == match self {
                Error::GenericError(m) => m@,
            },
    {
        match self {
            Error::GenericError(m) => m,
        }
    }
}

/// Hint returned at the end of the render and postprocess stages.
/// Returning `Skip` from the render stage bypasses postprocessing.
#[derive(Clone, Copy, Debug, PartialEq, Eq, Structural)]
pub enum GlRenderCallbackStatus {
    /// Continue onto the next stage, from render to postprocess
    Continue,
    /// Skip the postprocess stage and blit the render target directly
    Skip,
}

} // verus!
