//! The surface configuration of the graphics context, and its resizes.
use vstd::prelude::*;

verus! {

/// Width of the surface when it is first configured.
pub const INITIAL_WIDTH: u32 = 800;

/// Height of the surface when it is first configured.
pub const INITIAL_HEIGHT: u32 = 600;

/// Most frames that may wait for presentation at once.
pub const MAX_FRAME_LATENCY: u32 = 3;

/// How the surface's images are used.
#[derive(Clone, Copy, Debug, PartialEq, Eq)]
pub enum SurfaceUsage {
    /// As the color target of a render pass.
    RenderAttachment,
}

/// How finished frames are handed to the display.
#[derive(Clone, Copy, Debug, PartialEq, Eq)]
pub enum PresentMode {
    /// First in, first out, paced by vertical sync: no tearing.
    Fifo,
}

/// How the surface's alpha is composited with the desktop.
#[derive(Clone, Copy, Debug, PartialEq, Eq)]
pub enum AlphaMode {
    /// Whatever the platform chooses.
    Auto,
}

/// Why a surface configuration was refused.
#[derive(Clone, Copy, Debug, PartialEq, Eq)]
pub enum ConfigError {
    /// A surface cannot be configured with a zero width or height.
    ZeroSize,
}

/// Configuration of the presentable surface.
#[derive(Clone, Copy, Debug, PartialEq, Eq)]
pub struct SurfaceSettings {
    pub usage: SurfaceUsage,
    pub format: wgpu::TextureFormat,
    pub width: u32,
    pub height: u32,
    pub present_mode: PresentMode,
    pub desired_maximum_frame_latency: u32,
    pub alpha_mode: AlphaMode,
    /// Formats, besides `format`, in which views of the surface's images may
    /// be made.
    pub view_formats: &'static [wgpu::TextureFormat],
}

/// The configuration first applied to a surface whose chosen format is `format`.
pub open spec fn initial_settings(format: wgpu::TextureFormat) -> SurfaceSettings {
    SurfaceSettings {
        usage: SurfaceUsage::RenderAttachment,
        format,
        width: INITIAL_WIDTH as u32,
        height: INITIAL_HEIGHT as u32,
        present_mode: PresentMode::Fifo,
        desired_maximum_frame_latency: MAX_FRAME_LATENCY as u32,
        alpha_mode: AlphaMode::Auto,
        view_formats: &[],
    }
}

/// `s` with its size set to `width` by `height`, all else kept.
pub open spec fn with_size(s: SurfaceSettings, width: u32, height: u32) -> SurfaceSettings {
    SurfaceSettings { width, height, ..s }
}

impl SurfaceSettings {
    /// The configuration a surface gets when first set up: render-attachment
    /// usage, the given format, 800 by 600, FIFO presentation with at most 3
    /// frames of latency, automatic alpha, no additional view formats.
    pub fn initial(format: wgpu::TextureFormat) -> (r: SurfaceSettings)
        ensures
            r == initial_settings(format),
            r.view_formats@.len() == 0,
    {
        SurfaceSettings {
            usage: SurfaceUsage::RenderAttachment,
            format,
            width: INITIAL_WIDTH,
            height: INITIAL_HEIGHT,
            present_mode: PresentMode::Fifo,
            desired_maximum_frame_latency: MAX_FRAME_LATENCY,
            alpha_mode: AlphaMode::Auto,
            view_formats: &[],
        }
    }

    /// Takes a new window size. Returns whether the configuration changed, so
    /// that the surface must be configured again: an unchanged size is a
    /// no-op. A zero width or height is refused and changes nothing.
    pub fn resize(&mut self, width: u32, height: u32) -> (r: Result<bool, ConfigError>)
        ensures
            (width == 0 || height == 0) <==> r is Err,
            r is Err ==> r == Err::<bool, ConfigError>(ConfigError::ZeroSize),
            r != Ok::<bool, ConfigError>(true) ==> *final(self) == *old(self),
            r is Ok ==> *final(self) == with_size(*old(self), width, height),
            r == Ok::<bool, ConfigError>(true) <==> (r is Ok && (width != old(self).width
                || height != old(self).height)),
    {
        if width == 0 || height == 0 {
            return Err(ConfigError::ZeroSize);
        }
        if width == self.width && height == self.height {
            return Ok(false);
        }
        self.width = width;
        self.height = height;
        Ok(true)
    }
}

} // verus!
