//! The render pipeline's fixed state, pinned to the surface format it is
//! built for.
use crate::surface::SurfaceSettings;
use crate::vertex::{triangle_layout, Vertex, VertexLayout};
use vstd::prelude::*;

verus! {

/// How vertices are assembled into primitives.
#[derive(Clone, Copy, Debug, PartialEq, Eq)]
pub enum Topology {
    /// Every three vertices make one triangle.
    TriangleList,
}

/// Which winding makes a triangle face the viewer.
#[derive(Clone, Copy, Debug, PartialEq, Eq)]
pub enum FrontFace {
    /// Counter-clockwise.
    Ccw,
    /// Clockwise.
    Cw,
}

/// A side of a triangle.
#[derive(Clone, Copy, Debug, PartialEq, Eq)]
pub enum Face {
    Front,
    Back,
}

/// How triangles are rasterised.
#[derive(Clone, Copy, Debug, PartialEq, Eq)]
pub enum PolygonMode {
    /// Filled.
    Fill,
}

/// How the fragment output is combined with the target.
#[derive(Clone, Copy, Debug, PartialEq, Eq)]
pub enum Blend {
    /// The output replaces what was there: opaque, no transparency.
    Replace,
}

/// Which channels of the color target a draw writes.
#[derive(Clone, Copy, Debug, PartialEq, Eq)]
pub struct ColorWrites {
    pub red: bool,
    pub green: bool,
    pub blue: bool,
    pub alpha: bool,
}

/// Everything a render pipeline is built from. A pipeline is immutable: a
/// change of surface format or vertex layout calls for a new one.
#[derive(Clone, Copy, Debug, PartialEq, Eq)]
pub struct PipelineDesc {
    /// Entry point of the vertex stage.
    pub vertex_entry: &'static str,
    /// Entry point of the fragment stage.
    pub fragment_entry: &'static str,
    /// Bind group layouts of the pipeline layout (there are no uniforms).
    pub bind_group_count: u32,
    /// Push constant ranges of the pipeline layout (there are none).
    pub push_constant_range_count: u32,
    /// The one vertex buffer's layout.
    pub vertex_layout: VertexLayout,
    /// Format of the one color target.
    pub color_format: wgpu::TextureFormat,
    pub blend: Blend,
    /// Channels of the color target that are written.
    pub write_mask: ColorWrites,
    pub topology: Topology,
    pub front_face: FrontFace,
    pub cull_mode: Option<Face>,
    pub polygon_mode: PolygonMode,
    /// Whether a depth/stencil test runs.
    pub depth_stencil: bool,
    /// Samples per pixel.
    pub sample_count: u32,
}

/// The pipeline that draws the mesh into a target of format `format`.
pub open spec fn pipeline_for(format: wgpu::TextureFormat) -> PipelineDesc {
    PipelineDesc {
        vertex_entry: "vs_main",
        fragment_entry: "fs_main",
        bind_group_count: 0,
        push_constant_range_count: 0,
        vertex_layout: triangle_layout(),
        color_format: format,
        blend: Blend::Replace,
        write_mask: ColorWrites { red: true, green: true, blue: true, alpha: true },
        topology: Topology::TriangleList,
        front_face: FrontFace::Ccw,
        cull_mode: Some(Face::Back),
        polygon_mode: PolygonMode::Fill,
        depth_stencil: false,
        sample_count: 1,
    }
}

/// Describes the pipeline for the surface configured as `settings`: shader
/// entry points `vs_main` and `fs_main`, an empty pipeline layout (no bind
/// groups, no push constants), the
/// vertex layout of the mesh, a triangle list with counter-clockwise front
/// faces and back faces culled, filled, no depth/stencil test, one sample,
/// and one color target in the surface's format, all channels written with
/// replace blend.
pub fn build_pipeline(settings: &SurfaceSettings) -> (r: PipelineDesc)
    ensures
        r == pipeline_for(settings.format),
        r.color_format == settings.format,
{
    PipelineDesc {
        vertex_entry: "vs_main",
        fragment_entry: "fs_main",
        bind_group_count: 0,
        push_constant_range_count: 0,
        vertex_layout: Vertex::desc(),
        color_format: settings.format,
        blend: Blend::Replace,
        write_mask: ColorWrites { red: true, green: true, blue: true, alpha: true },
        topology: Topology::TriangleList,
        front_face: FrontFace::Ccw,
        cull_mode: Some(Face::Back),
        polygon_mode: PolygonMode::Fill,
        depth_stencil: false,
        sample_count: 1,
    }
}

} // verus!
