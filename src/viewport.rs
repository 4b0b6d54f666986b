use vstd::prelude::*;

use crate::error::Error;

verus! {

/// Antialiasing mode of the off-screen targets.
#[derive(Clone, Copy, Debug, PartialEq, Eq, Structural)]
pub enum AaMode {
    /// One sample per pixel
    Single,
    /// Multisampled antialiasing with the given number of samples
    Multi(u8),
    /// Coverage sampling with the given numbers of samples and fragments
    Coverage(u8, u8),
}

impl AaMode {
    /// Whether pipelines rendering under this mode need a multisampling
    /// rasterizer: true of the multisampled modes only.
    pub fn is_multisampled(&self) -> (r: bool)
        ensures
            r == (*self is Multi),
    {
        matches!(self, AaMode::Multi(_))
    }
}

/// The supersampling multiplier applied to the widget size in each direction.
/// It is a configuration hook that every mode currently pins to one: the
/// multisampled modes gain their samples from the texture, not its size.
pub open spec fn supersampling(aa: AaMode) -> int {
    1
}

/// The viewport computed from a mode and a widget client-area size.
pub open spec fn spec_with_aa(aa: AaMode, target_width: i32, target_height: i32) -> Viewport {
    Viewport {
        width: (target_width * supersampling(aa)) as i32,
        height: (target_height * supersampling(aa)) as i32,
        target_width,
        target_height,
        aa,
    }
}

/// Size of the toolkit widget and of the off-screen targets rendered for it.
#[derive(Clone, Copy, Debug, PartialEq, Eq, Structural)]
pub struct Viewport {
    /// Width of the off-screen render target in pixels
    pub width: i32,
    /// Height of the off-screen render target in pixels
    pub height: i32,
    /// Width of the widget client area in pixels
    pub target_width: i32,
    /// Height of the widget client area in pixels
    pub target_height: i32,
    /// Antialiasing mode of the off-screen targets
    pub aa: AaMode,
}

/// The largest extent a texture can be given, in pixels.
pub const MAX_TEXTURE_SIZE: i32 = 65535;

/// Whether a pixel extent can be handed to the texture allocator.
pub open spec fn fits_texture(n: i32) -> bool {
    0 <= n <= MAX_TEXTURE_SIZE
}

/// The sizes to allocate for a viewport: the off-screen color and depth
/// targets, and the single-sampled target of the postprocess stage.
#[derive(Clone, Copy, Debug, PartialEq, Eq, Structural)]
pub struct SurfaceRequest {
    /// Antialiasing mode of the off-screen color and depth targets
    pub aa: AaMode,
    /// Width of the off-screen color and depth targets
    pub width: u16,
    /// Height of the off-screen color and depth targets
    pub height: u16,
    /// Width of the postprocess target, the widget's own width
    pub post_width: u16,
    /// Height of the postprocess target, the widget's own height
    pub post_height: u16,
}

impl SurfaceRequest {
    /// The request that allocates exactly the extents of `vp`.
    pub open spec fn for_viewport(self, vp: Viewport) -> bool {
        &&& self.aa == vp.aa
        &&& self.width as int == vp.width as int
        &&& self.height as int == vp.height as int
        &&& self.post_width as int == vp.target_width as int
        &&& self.post_height as int == vp.target_height as int
    }
}

/// Pixel shader of the postprocess stage.
#[derive(Clone, Copy, Debug, PartialEq, Eq, Structural)]
pub enum PixelShader {
    /// Samples the source once per pixel and gamma-encodes it
    Copy,
    /// Averages four samples of a multisampled source and gamma-encodes them
    Resolve4x,
}

/// The built-in pixel shader for a mode.
pub open spec fn spec_pixel_shader(aa: AaMode) -> PixelShader {
    if aa == AaMode::Multi(4) {
        PixelShader::Resolve4x
    } else {
        PixelShader::Copy
    }
}

impl PixelShader {
    /// The built-in postprocess shader for `aa`: the four-sample resolve for
    /// four-sample multisampling, the plain copy for every other mode.
    pub fn for_aa(aa: AaMode) -> (r: PixelShader)
        ensures
            r == spec_pixel_shader(aa),
    {
        match aa {
            AaMode::Multi(4) => PixelShader::Resolve4x,
            _ => PixelShader::Copy,
        }
    }
}

impl Viewport {
    /// Whether the extents follow from the widget size and the mode.
    pub open spec fn wf(self) -> bool {
        self == spec_with_aa(self.aa, self.target_width, self.target_height)
    }

    /// Whether `self` and `other` ask for off-screen targets of the same size.
    pub open spec fn same_extent(self, other: Viewport) -> bool {
        self.width == other.width && self.height == other.height
    }

    /// Computes the off-screen extents for a widget size under a mode.
    fn aa_size(aa: AaMode, target_width: i32, target_height: i32) -> (r: (i32, i32))
        ensures
            r.0 == target_width * supersampling(aa),
            r.1 == target_height * supersampling(aa),
    {
        let (mx, my): (i32, i32) = match aa {
            AaMode::Single => (1, 1),
            AaMode::Multi(_) => (1, 1),
            AaMode::Coverage(_, _) => (1, 1),
        };
        (target_width * mx, target_height * my)
    }

    /// Creates the viewport of a widget client area of
    /// `target_width` × `target_height` rendered under `aa`.
    pub fn with_aa(aa: AaMode, target_width: i32, target_height: i32) -> (r: Viewport)
        ensures
            r == spec_with_aa(aa, target_width, target_height),
            r.wf(),
    {
        let (width, height) = Self::aa_size(aa, target_width, target_height);
        Viewport { width, height, target_width, target_height, aa }
    }

    /// The sizes to allocate for this viewport. Fails when an extent is
    /// negative or larger than a texture can be.
    pub fn surface_request(&self) -> (r: Result<SurfaceRequest, Error>)
        ensures
            r is Ok <==> (fits_texture(self.width) && fits_texture(self.height)
                && fits_texture(self.target_width) && fits_texture(self.target_height)),
            r matches Ok(req) ==> req.for_viewport(*self),
    {
        if 0 <= self.width && self.width <= MAX_TEXTURE_SIZE && 0 <= self.height && self.height
            <= MAX_TEXTURE_SIZE && 0 <= self.target_width && self.target_width <= MAX_TEXTURE_SIZE
            && 0 <= self.target_height && self.target_height <= MAX_TEXTURE_SIZE {
            Ok(
                SurfaceRequest {
                    aa: self.aa,
                    width: self.width as u16,
                    height: self.height as u16,
                    post_width: self.target_width as u16,
                    post_height: self.target_height as u16,
                },
            )
        } else {
            Err(Error::GenericError("render target size out of range".to_owned()))
        }
    }
}

} // verus!
