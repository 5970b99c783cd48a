//! The render pipeline: the immutable pipeline description, the vertex
//! layout of the fixed triangle geometry, and the one draw call every
//! frame issues.
//!
//! The pipeline is built once against the session's negotiated format
//! and never changes afterwards; only a change of surface format would
//! require a rebuild. The shader source and the three vertices
//! themselves (floating-point positions and colours) live with the
//! embedding application; the layout, counts and fixed-function state
//! decided here are what the draw depends on.

use vstd::prelude::*;
use crate::format::TextureFormat;
use crate::format::with_srgb;
use crate::session::Session;

verus! {

/// Bytes of one `3 x float32` vertex attribute.
pub const VEC3_BYTES: u32 = 12;

/// Bytes of one vertex: position and colour, tightly packed.
pub const VERTEX_STRIDE: u32 = 24;

/// Vertices of the fixed triangle.
pub const TRIANGLE_VERTEX_COUNT: u32 = 3;

/// The data type of one vertex attribute.
#[derive(Clone, Copy, Debug, PartialEq, Eq, Structural)]
pub enum VertexFormat {
    /// Three 32-bit floats, tightly packed.
    Float32x3,
}

/// One attribute of the vertex layout: where it starts inside a
/// vertex, which shader location reads it, and its data type.
#[derive(Clone, Copy, Debug, PartialEq, Eq, Structural)]
pub struct VertexAttribute {
    pub offset: u32,
    pub shader_location: u32,
    pub format: VertexFormat,
}

/// The layout of the vertex buffer: stride and attributes, advanced
/// once per vertex.
#[derive(Debug, PartialEq, Eq)]
pub struct VertexLayout {
    pub array_stride: u32,
    pub attributes: Vec<VertexAttribute>,
}

/// The attributes of the fixed geometry: position at the start of the
/// vertex in location 0, colour right behind it in location 1, both
/// `3 x float32`.
pub open spec fn triangle_attributes() -> Seq<VertexAttribute> {
    seq![
        VertexAttribute { offset: 0, shader_location: 0, format: VertexFormat::Float32x3 },
        VertexAttribute {
            offset: VEC3_BYTES,
            shader_location: 1,
            format: VertexFormat::Float32x3,
        },
    ]
}

/// The vertex layout of the fixed triangle geometry: two tightly
/// packed `3 x float32` attributes, so the stride is exactly the two
/// attribute sizes together and the second attribute starts where the
/// first ends.
pub fn vertex_layout() -> (r: VertexLayout)
    ensures
        r.array_stride == VERTEX_STRIDE,
        r.array_stride == 2 * VEC3_BYTES,
        r.attributes@ == triangle_attributes(),
{
    let mut attributes: Vec<VertexAttribute> = Vec::new();
    attributes.push(
        VertexAttribute { offset: 0, shader_location: 0, format: VertexFormat::Float32x3 },
    );
    attributes.push(
        VertexAttribute { offset: VEC3_BYTES, shader_location: 1, format: VertexFormat::Float32x3 },
    );
    assert(attributes@ =~= triangle_attributes());
    VertexLayout { array_stride: VERTEX_STRIDE, attributes }
}

/// How vertices are assembled into primitives.
#[derive(Clone, Copy, Debug, PartialEq, Eq, Structural)]
pub enum PrimitiveTopology {
    TriangleList,
}

/// Which winding order counts as the front of a face.
#[derive(Clone, Copy, Debug, PartialEq, Eq, Structural)]
pub enum FrontFace {
    CounterClockwise,
}

/// Which faces are culled before rasterization.
#[derive(Clone, Copy, Debug, PartialEq, Eq, Structural)]
pub enum CullMode {
    Back,
}

/// How fragment output is combined with the target.
#[derive(Clone, Copy, Debug, PartialEq, Eq, Structural)]
pub enum BlendMode {
    /// Straight replacement: the fragment overwrites the target.
    Replace,
}

/// One non-indexed draw: a contiguous vertex range, drawn for a
/// contiguous instance range.
#[derive(Clone, Copy, Debug, PartialEq, Eq, Structural)]
pub struct DrawCall {
    pub first_vertex: u32,
    pub vertex_count: u32,
    pub first_instance: u32,
    pub instance_count: u32,
}

/// The immutable render pipeline description: shader interface layout
/// and fixed-function state, bound to the session's negotiated surface
/// format. Built once at startup; rebuilt only if that format ever
/// changes.
#[derive(Debug, PartialEq, Eq)]
pub struct Pipeline {
    pub target_format: TextureFormat,
    pub topology: PrimitiveTopology,
    pub front_face: FrontFace,
    pub cull_mode: CullMode,
    pub blend: BlendMode,
    pub sample_count: u32,
    pub has_depth_stencil: bool,
    pub vertex_layout: VertexLayout,
    pub vertex_count: u32,
}

impl Pipeline {
    /// Build the pipeline description against a session: triangle
    /// list, counter-clockwise front faces, back-face culling, no
    /// depth/stencil, single sample, replace-mode blending, colour
    /// target in the session's sRGB view format, and the fixed
    /// three-vertex triangle.
    pub fn build(session: &Session) -> (r: Pipeline)
        ensures
            r.target_format == with_srgb(session.config.format),
            r.topology == PrimitiveTopology::TriangleList,
            r.front_face == FrontFace::CounterClockwise,
            r.cull_mode == CullMode::Back,
            r.blend == BlendMode::Replace,
            r.sample_count == 1,
            !r.has_depth_stencil,
            r.vertex_layout.array_stride == VERTEX_STRIDE,
            r.vertex_layout.attributes@ == triangle_attributes(),
            r.vertex_count == TRIANGLE_VERTEX_COUNT,
    {
        Pipeline {
            target_format: session.frame_view_format(),
            topology: PrimitiveTopology::TriangleList,
            front_face: FrontFace::CounterClockwise,
            cull_mode: CullMode::Back,
            blend: BlendMode::Replace,
            sample_count: 1,
            has_depth_stencil: false,
            vertex_layout: vertex_layout(),
            vertex_count: TRIANGLE_VERTEX_COUNT,
        }
    }

    /// The one draw every frame issues: all uploaded vertices from the
    /// start of the buffer, one instance, not indexed.
    pub fn draw_call(&self) -> (r: DrawCall)
        ensures
            r.first_vertex == 0,
            r.vertex_count == self.vertex_count,
            r.first_instance == 0,
            r.instance_count == 1,
    {
        DrawCall {
            first_vertex: 0,
            vertex_count: self.vertex_count,
            first_instance: 0,
            instance_count: 1,
        }
    }
}

} // verus!
