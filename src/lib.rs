//! Verified core of a small wgpu renderer: surface format negotiation, the
//! surface configuration and its resizes, the render pipeline's fixed state,
//! the static triangle mesh and the event-driven frame loop.
pub mod driver;
pub mod format;
pub mod frame;
pub mod laws;
pub mod pipeline;
pub mod surface;
pub mod vertex;
