//! The vertex buffer layout of the scene pipeline and the index lists of
//! the built-in shapes.

use crate::buffer::{
    index_buffer, spec_index_buffer, spec_vertex_buffer, vertex_buffer, BufferDesc,
};
use crate::pod::{indices_to_bytes, spec_u16_bytes};
use vstd::prelude::*;

verus! {

/// Formats of vertex attributes.
#[derive(Clone, Copy, Debug, PartialEq, Eq, Structural)]
pub enum VertexFormat {
    /// Two 32-bit floats.
    Float32x2,
    /// Three 32-bit floats.
    Float32x3,
}

/// How a vertex buffer advances.
#[derive(Clone, Copy, Debug, PartialEq, Eq, Structural)]
pub enum VertexStepMode {
    Vertex,
    Instance,
}

/// One attribute of a vertex: where it starts within the vertex, which
/// shader input it feeds, and its format.
#[derive(Clone, Copy, Debug, PartialEq, Eq, Structural)]
pub struct VertexAttribute {
    pub offset: u64,
    pub shader_location: u32,
    pub format: VertexFormat,
}

/// The layout of one vertex buffer.
#[derive(Debug, PartialEq, Eq)]
pub struct VertexBufferLayout {
    /// Distance in bytes from one vertex to the next.
    pub array_stride: u64,
    pub step_mode: VertexStepMode,
    pub attributes: Vec<VertexAttribute>,
}

/// A vertex buffer layout as a mathematical value.
pub struct VertexBufferLayoutView {
    pub array_stride: u64,
    pub step_mode: VertexStepMode,
    pub attributes: Seq<VertexAttribute>,
}

impl View for VertexBufferLayout {
    type V = VertexBufferLayoutView;

    open spec fn view(&self) -> VertexBufferLayoutView {
        VertexBufferLayoutView {
            array_stride: self.array_stride,
            step_mode: self.step_mode,
            attributes: self.attributes@,
        }
    }
}

/// Size in bytes of an attribute of the given format.
pub open spec fn spec_format_size(format: VertexFormat) -> u64 {
    match format {
        VertexFormat::Float32x2 => 8,
        VertexFormat::Float32x3 => 12,
    }
}

/// Size in bytes of one vertex: position, texture coordinate, normal.
pub const VERTEX_SIZE: u64 = 32;

/// Number of vertices of the square.
pub const SQUARE_VERTEX_COUNT: u16 = 4;

/// Number of vertices of the cube: four to each of six faces.
pub const CUBE_VERTEX_COUNT: u16 = 24;

/// The layout of a scene vertex: position (three floats) at offset 0 for
/// input 0, texture coordinate (two floats) at offset 12 for input 1,
/// normal (three floats) at offset 20 for input 2; 32 bytes per vertex.
pub open spec fn spec_vertex_buffer_layout() -> VertexBufferLayoutView {
    VertexBufferLayoutView {
        array_stride: VERTEX_SIZE,
        step_mode: VertexStepMode::Vertex,
        attributes: seq![
            VertexAttribute { offset: 0, shader_location: 0, format: VertexFormat::Float32x3 },
            VertexAttribute { offset: 12, shader_location: 1, format: VertexFormat::Float32x2 },
            VertexAttribute { offset: 20, shader_location: 2, format: VertexFormat::Float32x3 },
        ],
    }
}

/// Size in bytes of an attribute of the given format.
pub fn format_size(format: VertexFormat) -> (size: u64)
    ensures
        size == spec_format_size(format),
{
    match format {
        VertexFormat::Float32x2 => 8,
        VertexFormat::Float32x3 => 12,
    }
}

/// The layout of a scene vertex. Each attribute starts where the one
/// before it ends.
pub fn create_vertex_buffer_layout() -> (layout: VertexBufferLayout)
    ensures
        layout@ == spec_vertex_buffer_layout(),
{
    let position = VertexFormat::Float32x3;
    let tex_uv = VertexFormat::Float32x2;
    let normal = VertexFormat::Float32x3;
    let tex_uv_offset: u64 = format_size(position);
    let normal_offset: u64 = tex_uv_offset + format_size(tex_uv);
    let mut attributes: Vec<VertexAttribute> = Vec::new();
    attributes.push(VertexAttribute { offset: 0, shader_location: 0, format: position });
    attributes.push(VertexAttribute { offset: tex_uv_offset, shader_location: 1, format: tex_uv });
    attributes.push(VertexAttribute { offset: normal_offset, shader_location: 2, format: normal });
    assert(attributes@ =~= spec_vertex_buffer_layout().attributes);
    VertexBufferLayout {
        array_stride: normal_offset + format_size(normal),
        step_mode: VertexStepMode::Vertex,
        attributes,
    }
}

/// The attributes of a scene vertex are packed without gap or overlap and
/// fill the stride exactly, and attribute `i` feeds shader input `i`.
pub proof fn lemma_vertex_layout_packed()
    ensures
        ({
            let layout = spec_vertex_buffer_layout();
            let a = layout.attributes;
            &&& a.len() == 3
            &&& a[0].offset == 0
            &&& forall|i: int|
                0 <= i < 2 ==> (#[trigger] a[i + 1]).offset == a[i].offset + spec_format_size(
                    a[i].format,
                )
            &&& a[2].offset + spec_format_size(a[2].format) == layout.array_stride
            &&& forall|i: int| 0 <= i < 3 ==> (#[trigger] a[i]).shader_location == i
        }),
{
}

/// Indices of the square as two triangles, the second sharing the edge from
/// vertex 1 to vertex 2 with the first.
pub open spec fn spec_indices_square() -> Seq<u16> {
    seq![0, 1, 2, 1, 3, 2]
}

/// Indices of the square as a fan around vertex 0.
pub open spec fn spec_indices_square_reversed() -> Seq<u16> {
    seq![0, 1, 2, 0, 2, 3]
}

/// Indices of the cube: face `f` uses vertices `4f .. 4f + 4`, as the two
/// triangles `(0, 1, 2)` and `(2, 3, 0)` of them.
pub open spec fn spec_indices_cube() -> Seq<u16> {
    Seq::new(
        36,
        |i: int|
            {
                let face = i / 6;
                let corner = i % 6;
                (4 * face + (if corner < 3 {
                    corner
                } else if corner < 5 {
                    corner - 1
                } else {
                    0
                })) as u16
            },
    )
}

/// Indices of the square the scene pass draws.
pub fn indices_square() -> (indices: Vec<u16>)
    ensures
        indices@ == spec_indices_square(),
{
    let mut indices: Vec<u16> = Vec::new();
    indices.push(0);
    indices.push(1);
    indices.push(2);
    indices.push(1);
    indices.push(3);
    indices.push(2);
    assert(indices@ =~= spec_indices_square());
    indices
}

/// Indices of the square with the second triangle wound around vertex 0.
pub fn indices_square_reversed() -> (indices: Vec<u16>)
    ensures
        indices@ == spec_indices_square_reversed(),
{
    let mut indices: Vec<u16> = Vec::new();
    indices.push(0);
    indices.push(1);
    indices.push(2);
    indices.push(0);
    indices.push(2);
    indices.push(3);
    assert(indices@ =~= spec_indices_square_reversed());
    indices
}

/// Indices of the cube, six per face.
pub fn indices_cube() -> (indices: Vec<u16>)
    ensures
        indices@ == spec_indices_cube(),
{
    let mut indices: Vec<u16> = Vec::new();
    let mut face: u16 = 0;
    while face < 6
        invariant
            face <= 6,
            indices@.len() == 6 * face,
            forall|i: int| 0 <= i < 6 * face ==> (#[trigger] indices@[i]) == spec_indices_cube()[i],
        decreases 6 - face,
    {
        let base: u16 = 4 * face;
        indices.push(base);
        indices.push(base + 1);
        indices.push(base + 2);
        indices.push(base + 2);
        indices.push(base + 3);
        indices.push(base);
        face = face + 1;
    }
    assert(indices@ =~= spec_indices_cube());
    indices
}

/// Size in bytes of the vertex buffer of the square.
pub const SQUARE_VERTEX_BYTES: u64 = 128;

/// Size in bytes of the index buffer of the square.
pub const SQUARE_INDEX_BYTES: u64 = 12;

/// The vertex buffer of the square: four vertices of [`VERTEX_SIZE`] bytes.
pub fn square_vertex_buffer() -> (desc: BufferDesc)
    ensures
        desc == spec_vertex_buffer(SQUARE_VERTEX_BYTES),
        desc.size == VERTEX_SIZE * SQUARE_VERTEX_COUNT,
{
    vertex_buffer(VERTEX_SIZE * 4)
}

/// The index buffer of the square: six 16-bit indices.
pub fn square_index_buffer() -> (desc: BufferDesc)
    ensures
        desc == spec_index_buffer(SQUARE_INDEX_BYTES),
        desc.size == 2 * spec_indices_square().len(),
{
    index_buffer(SQUARE_INDEX_BYTES)
}

/// The bytes of the index buffer of the square.
pub fn square_index_bytes() -> (bytes: Vec<u8>)
    ensures
        bytes@ == spec_u16_bytes(spec_indices_square(), true) || bytes@ == spec_u16_bytes(
            spec_indices_square(),
            false,
        ),
        bytes@.len() == 12,
{
    let indices = indices_square();
    indices_to_bytes(&indices)
}

/// Every index of the built-in shapes names a vertex of its shape.
pub proof fn lemma_indices_in_range(i: int)
    ensures
        0 <= i < 6 ==> spec_indices_square()[i] < SQUARE_VERTEX_COUNT,
        0 <= i < 6 ==> spec_indices_square_reversed()[i] < SQUARE_VERTEX_COUNT,
        0 <= i < 36 ==> spec_indices_cube()[i] < CUBE_VERTEX_COUNT,
        spec_indices_square().len() == crate::wgpu_ctx::QUAD_INDEX_COUNT,
{
}

} // verus!
