//! The static mesh: one triangle of three positions, its vertex buffer layout
//! and the bytes that fill the GPU vertex buffer.
//!
//! A coordinate is held as the bit pattern of an IEEE-754 single-precision
//! number, which is what the GPU reads from the buffer.
use vstd::bytes::{spec_u32_to_le_bytes, u32_to_le_bytes, lemma_auto_spec_u32_to_from_le_bytes};
use vstd::prelude::*;

verus! {

/// Bits of the single-precision number 0.0.
pub const COORD_ZERO: u32 = 0x0000_0000;

/// Bits of the single-precision number 0.5.
pub const COORD_HALF: u32 = 0x3F00_0000;

/// Bits of the single-precision number -0.5.
pub const COORD_MINUS_HALF: u32 = 0xBF00_0000;

/// Size in bytes of one vertex in the buffer: three 4-byte coordinates.
pub const VERTEX_STRIDE: u64 = 12;

/// One vertex: a position (x, y, z), each coordinate as single-precision bits.
#[derive(Clone, Copy, Debug, PartialEq, Eq)]
pub struct Vertex {
    pub position: [u32; 3],
}

/// How the GPU steps through the vertex buffer.
#[derive(Clone, Copy, Debug, PartialEq, Eq)]
pub enum StepMode {
    /// One element per vertex.
    Vertex,
    /// One element per instance.
    Instance,
}

/// Format of one attribute in the vertex buffer.
#[derive(Clone, Copy, Debug, PartialEq, Eq)]
pub enum AttributeFormat {
    /// Three single-precision numbers.
    Float32x3,
}

/// One attribute of a vertex: where it sits and where the shader reads it.
#[derive(Clone, Copy, Debug, PartialEq, Eq)]
pub struct VertexAttribute {
    pub offset: u64,
    pub shader_location: u32,
    pub format: AttributeFormat,
}

/// Layout of the vertex buffer as the pipeline reads it.
#[derive(Clone, Copy, Debug, PartialEq, Eq)]
pub struct VertexLayout {
    pub array_stride: u64,
    pub step_mode: StepMode,
    pub attributes: [VertexAttribute; 1],
}

/// The mesh: an upward triangle with corners (0, 0.5, 0), (-0.5, -0.5, 0)
/// and (0.5, -0.5, 0), in that order.
pub open spec fn triangle() -> Seq<Vertex> {
    seq![
        Vertex { position: [COORD_ZERO, COORD_HALF, COORD_ZERO] },
        Vertex { position: [COORD_MINUS_HALF, COORD_MINUS_HALF, COORD_ZERO] },
        Vertex { position: [COORD_HALF, COORD_MINUS_HALF, COORD_ZERO] },
    ]
}

/// The bytes of one vertex: its three coordinates, each little-endian.
pub open spec fn vertex_bytes(v: Vertex) -> Seq<u8> {
    spec_u32_to_le_bytes(v.position[0]) + spec_u32_to_le_bytes(v.position[1])
        + spec_u32_to_le_bytes(v.position[2])
}

/// The bytes of a vertex buffer holding `vs`, one vertex after the other.
pub open spec fn mesh_bytes(vs: Seq<Vertex>) -> Seq<u8>
    decreases vs.len(),
{
    if vs.len() == 0 {
        Seq::empty()
    } else {
        mesh_bytes(vs.drop_last()) + vertex_bytes(vs.last())
    }
}

/// The layout that `Vertex::desc` describes.
pub open spec fn triangle_layout() -> VertexLayout {
    VertexLayout {
        array_stride: VERTEX_STRIDE,
        step_mode: StepMode::Vertex,
        attributes: [
            VertexAttribute { offset: 0, shader_location: 0, format: AttributeFormat::Float32x3 },
        ],
    }
}

impl Vertex {
    /// The buffer layout of a vertex: a stride of one vertex, stepped per
    /// vertex, with the position at offset 0 and shader location 0.
    pub fn desc() -> (r: VertexLayout)
        ensures
            r == triangle_layout(),
    {
        VertexLayout {
            array_stride: VERTEX_STRIDE,
            step_mode: StepMode::Vertex,
            attributes: [
                VertexAttribute {
                    offset: 0,
                    shader_location: 0,
                    format: AttributeFormat::Float32x3,
                },
            ],
        }
    }
}

/// The triangle's vertices.
pub fn vertices() -> (r: Vec<Vertex>)
    ensures
        r@ == triangle(),
{
    let r = vec![
        Vertex { position: [COORD_ZERO, COORD_HALF, COORD_ZERO] },
        Vertex { position: [COORD_MINUS_HALF, COORD_MINUS_HALF, COORD_ZERO] },
        Vertex { position: [COORD_HALF, COORD_MINUS_HALF, COORD_ZERO] },
    ];
    assert(r@ =~= triangle());
    r
}

/// Every vertex takes as many bytes as the layout's stride.
pub proof fn lemma_vertex_bytes_len(v: Vertex)
    ensures
        vertex_bytes(v).len() == VERTEX_STRIDE,
{
    lemma_auto_spec_u32_to_from_le_bytes();
}

/// A buffer of `vs` takes one stride per vertex.
pub proof fn lemma_mesh_bytes_len(vs: Seq<Vertex>)
    ensures
        mesh_bytes(vs).len() == VERTEX_STRIDE * vs.len(),
    decreases vs.len(),
{
    if vs.len() > 0 {
        lemma_mesh_bytes_len(vs.drop_last());
        lemma_vertex_bytes_len(vs.last());
    }
}

/// The bytes that fill a vertex buffer holding `vs`.
pub fn vertex_buffer_contents(vs: &Vec<Vertex>) -> (r: Vec<u8>)
    ensures
        r@ == mesh_bytes(vs@),
{
    let mut out: Vec<u8> = Vec::new();
    let mut i: usize = 0;
    while i < vs.len()
        invariant
            i <= vs@.len(),
            out@ == mesh_bytes(vs@.subrange(0, i as int)),
        decreases vs@.len() - i,
    {
        let v = vs[i];
        let mut x = u32_to_le_bytes(v.position[0]);
        let mut y = u32_to_le_bytes(v.position[1]);
        let mut z = u32_to_le_bytes(v.position[2]);
        out.append(&mut x);
        out.append(&mut y);
        out.append(&mut z);
        proof {
            let next = vs@.subrange(0, i + 1);
            assert(next.drop_last() =~= vs@.subrange(0, i as int));
            assert(next.last() == v);
        }
        i = i + 1;
    }
    assert(vs@.subrange(0, vs@.len() as int) =~= vs@);
    out
}

/// The bytes of the vertex buffer that the triangle fills.
pub fn triangle_buffer_contents() -> (r: Vec<u8>)
    ensures
        r@ == mesh_bytes(triangle()),
        r@.len() == 3 * VERTEX_STRIDE,
{
    let vs = vertices();
    proof {
        lemma_mesh_bytes_len(triangle());
    }
    vertex_buffer_contents(&vs)
}

} // verus!
