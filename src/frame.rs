//! What one frame does, and how a failed frame is classified.
use crate::surface::SurfaceSettings;
use vstd::prelude::*;

verus! {

/// Bits of the double-precision number 0.1, the clear color's red.
pub const CLEAR_RED_BITS: u64 = 0x3FB9_9999_9999_999A;

/// Bits of the double-precision number 0.2, the clear color's green.
pub const CLEAR_GREEN_BITS: u64 = 0x3FC9_9999_9999_999A;

/// Bits of the double-precision number 0.3, the clear color's blue.
pub const CLEAR_BLUE_BITS: u64 = 0x3FD3_3333_3333_3333;

/// Bits of the double-precision number 1.0, the clear color's alpha.
pub const CLEAR_ALPHA_BITS: u64 = 0x3FF0_0000_0000_0000;

/// Number of vertices the frame draws: the triangle's three.
pub const DRAW_VERTEX_COUNT: u32 = 3;

/// What becomes of the rendered color target at the end of the pass.
#[derive(Clone, Copy, Debug, PartialEq, Eq)]
pub enum StoreOp {
    /// The result is kept, to be presented.
    Store,
    /// The result is thrown away.
    Discard,
}

/// One draw call: the half-open vertex and instance ranges it covers.
#[derive(Clone, Copy, Debug, PartialEq, Eq)]
pub struct DrawCall {
    pub vertex_start: u32,
    pub vertex_end: u32,
    pub instance_start: u32,
    pub instance_end: u32,
}

/// The work of one frame: acquire an image of the surface configured at
/// `width` by `height` in `format`, clear it to `clear` (red, green, blue,
/// alpha, as double-precision bits) with `store` at the pass's end and a
/// depth/stencil attachment only where `depth_stencil_attachment` holds, bind the pipeline and the vertex buffer
/// at `vertex_slot`, issue `draw`, submit and present.
#[derive(Clone, Copy, Debug, PartialEq, Eq)]
pub struct FramePlan {
    pub width: u32,
    pub height: u32,
    pub format: wgpu::TextureFormat,
    pub clear: [u64; 4],
    pub store: StoreOp,
    pub depth_stencil_attachment: bool,
    pub vertex_slot: u32,
    pub draw: DrawCall,
}

/// Why a surface image could not be acquired or presented.
#[derive(Clone, Copy, Debug, PartialEq, Eq)]
pub enum AcquireFailure {
    /// No image became available in time.
    Timeout,
    /// The surface no longer matches its window and must be configured again.
    Outdated,
    /// The surface was lost and must be configured again.
    Lost,
    /// The GPU or the driver ran out of memory.
    OutOfMemory,
}

/// A frame's failure, by what it allows.
#[derive(Clone, Copy, Debug, PartialEq, Eq)]
pub enum RenderError {
    /// The frame is skipped and the loop goes on.
    Recoverable(AcquireFailure),
    /// The loop cannot go on.
    Fatal(AcquireFailure),
}

/// The single draw of every frame: vertices 0..3, instance 0..1.
pub open spec fn triangle_draw() -> DrawCall {
    DrawCall { vertex_start: 0, vertex_end: DRAW_VERTEX_COUNT as u32, instance_start: 0, instance_end: 1 }
}

/// The frame drawn on a surface configured as `s`.
pub open spec fn frame_for(s: SurfaceSettings) -> FramePlan {
    FramePlan {
        width: s.width,
        height: s.height,
        format: s.format,
        clear: [CLEAR_RED_BITS, CLEAR_GREEN_BITS, CLEAR_BLUE_BITS, CLEAR_ALPHA_BITS],
        store: StoreOp::Store,
        depth_stencil_attachment: false,
        vertex_slot: 0,
        draw: triangle_draw(),
    }
}

/// Whether a failure leaves the loop able to go on: all but running out of memory.
pub open spec fn is_recoverable(f: AcquireFailure) -> bool {
    !(f is OutOfMemory)
}

/// Plans the frame for the surface as it is configured now: cleared to
/// (0.1, 0.2, 0.3, 1.0), stored, no depth/stencil attachment, the vertex
/// buffer at slot 0 and one draw of vertices 0..3, instance 0..1.
pub fn plan_frame(settings: &SurfaceSettings) -> (r: FramePlan)
    ensures
        r == frame_for(*settings),
{
    FramePlan {
        width: settings.width,
        height: settings.height,
        format: settings.format,
        clear: [CLEAR_RED_BITS, CLEAR_GREEN_BITS, CLEAR_BLUE_BITS, CLEAR_ALPHA_BITS],
        store: StoreOp::Store,
        depth_stencil_attachment: false,
        vertex_slot: 0,
        draw: DrawCall {
            vertex_start: 0,
            vertex_end: DRAW_VERTEX_COUNT,
            instance_start: 0,
            instance_end: 1,
        },
    }
}

/// Classifies a failed frame: a lost or outdated surface and a timeout are
/// recoverable; running out of memory is fatal.
pub fn classify(f: AcquireFailure) -> (r: RenderError)
    ensures
        is_recoverable(f) ==> r == RenderError::Recoverable(f),
        !is_recoverable(f) ==> r == RenderError::Fatal(f),
{
    match f {
        AcquireFailure::OutOfMemory => RenderError::Fatal(f),
        _ => RenderError::Recoverable(f),
    }
}

} // verus!
