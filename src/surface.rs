use vstd::prelude::*;
use crate::format::ColorFormat;

verus! {

/// Frame-presentation timing policy of a surface.
#[derive(Clone, Copy, Debug, PartialEq, Eq, Structural)]
pub enum PresentMode {
    AutoVsync,
    AutoNoVsync,
    Fifo,
    FifoRelaxed,
    Immediate,
    Mailbox,
}

/// How the compositor treats the alpha channel of presented frames.
#[derive(Clone, Copy, Debug, PartialEq, Eq, Structural)]
pub enum AlphaMode {
    Auto,
    Opaque,
    PreMultiplied,
    PostMultiplied,
    Inherit,
}

/// Number of frames the presentation engine may queue ahead.
pub const MAX_FRAME_LATENCY: u32 = 2;

/// Negotiated parameters a surface is set up with. The texture usage is always
/// "render target" and no extra view formats are requested.
#[derive(Clone, Copy, Debug, PartialEq, Eq, Structural)]
pub struct SurfaceConfig {
    pub format: ColorFormat,
    pub width: u32,
    pub height: u32,
    pub present_mode: PresentMode,
    pub desired_maximum_frame_latency: u32,
    pub alpha_mode: AlphaMode,
}

/// The configuration built for a new surface from its format, size and present mode.
pub open spec fn initial_config(
    format: ColorFormat,
    width: u32,
    height: u32,
    present_mode: PresentMode,
) -> SurfaceConfig {
    SurfaceConfig {
        format,
        width,
        height,
        present_mode,
        desired_maximum_frame_latency: MAX_FRAME_LATENCY,
        alpha_mode: AlphaMode::Auto,
    }
}

impl SurfaceConfig {
    /// Configuration with the fixed defaults: latency of two frames, automatic alpha.
    pub fn new(format: ColorFormat, width: u32, height: u32, present_mode: PresentMode) -> (r:
        SurfaceConfig)
        ensures
            r == initial_config(format, width, height, present_mode),
    {
        SurfaceConfig {
            format,
            width,
            height,
            present_mode,
            desired_maximum_frame_latency: MAX_FRAME_LATENCY,
            alpha_mode: AlphaMode::Auto,
        }
    }
}

/// A presentable surface together with its configuration and the index of the
/// device it is configured against.
#[derive(Debug)]
pub struct RenderSurface<S> {
    pub surface: S,
    pub config: SurfaceConfig,
    pub dev_id: usize,
    pub format: ColorFormat,
}

impl<S> RenderSurface<S> {
    /// The configured format is the one the surface was created with.
    pub open spec fn wf(&self) -> bool {
        self.config.format == self.format
    }
}

} // verus!
