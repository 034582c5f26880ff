//! The graphics-pipeline configuration, held as an immutable value: the two
//! vertex streams' layouts, the blend state, the primitive and multisample
//! state, and the uniform binding. A backend turns this value into its own
//! pipeline descriptor; the layout facts proved here are what keep the
//! descriptor consistent with the byte images the batching code produces.

use vstd::prelude::*;

verus! {

use crate::quad::QUAD_BYTES;
use crate::quad::VERTEX_BYTES;

/// A source or destination weight of the blend equation.
#[derive(Debug, Clone, Copy, PartialEq, Eq, Structural)]
pub enum BlendFactor {
    /// Weight zero.
    Zero,
    /// Weight one.
    One,
    /// The source alpha.
    SrcAlpha,
    /// One minus the source alpha.
    OneMinusSrcAlpha,
}

/// How the two weighted operands combine.
#[derive(Debug, Clone, Copy, PartialEq, Eq, Structural)]
pub enum BlendOperation {
    /// The weighted operands are added.
    Add,
}

/// One blend equation: out = src * src_factor (op) dst * dst_factor.
#[derive(Debug, Clone, Copy, PartialEq, Eq, Structural)]
pub struct BlendComponent {
    /// Weight of the source operand.
    pub src_factor: BlendFactor,
    /// Weight of the destination operand.
    pub dst_factor: BlendFactor,
    /// How the weighted operands combine.
    pub operation: BlendOperation,
}

/// The blend equations of the color channels and of the alpha channel.
#[derive(Debug, Clone, Copy, PartialEq, Eq, Structural)]
pub struct BlendState {
    /// The equation applied to each color channel.
    pub color: BlendComponent,
    /// The equation applied to the alpha channel.
    pub alpha: BlendComponent,
}

/// Standard "over" compositing: color = src * src_alpha + dst * (1 -
/// src_alpha); alpha = src_alpha + dst_alpha * (1 - src_alpha).
pub open spec fn over_blend() -> BlendState {
    BlendState {
        color: BlendComponent {
            src_factor: BlendFactor::SrcAlpha,
            dst_factor: BlendFactor::OneMinusSrcAlpha,
            operation: BlendOperation::Add,
        },
        alpha: BlendComponent {
            src_factor: BlendFactor::One,
            dst_factor: BlendFactor::OneMinusSrcAlpha,
            operation: BlendOperation::Add,
        },
    }
}

/// How often a vertex stream advances.
#[derive(Debug, Clone, Copy, PartialEq, Eq, Structural)]
pub enum VertexStepMode {
    /// Once per vertex.
    Vertex,
    /// Once per instance.
    Instance,
}

/// The shape of one vertex attribute.
#[derive(Debug, Clone, Copy, PartialEq, Eq, Structural)]
pub enum VertexFormat {
    /// One 32-bit float.
    Float32,
    /// Two 32-bit floats.
    Float32x2,
    /// Four 32-bit floats.
    Float32x4,
}

/// Number of bytes an attribute of this format occupies.
pub open spec fn format_bytes(f: VertexFormat) -> int {
    match f {
        VertexFormat::Float32 => 4,
        VertexFormat::Float32x2 => 8,
        VertexFormat::Float32x4 => 16,
    }
}

/// One vertex attribute: where the shader sees it, its shape, and where it
/// sits inside each stride.
#[derive(Debug, Clone, Copy, PartialEq, Eq, Structural)]
pub struct VertexAttribute {
    /// The shader binding slot.
    pub shader_location: u32,
    /// The attribute's shape.
    pub format: VertexFormat,
    /// Byte offset inside one stride.
    pub offset: u32,
}

/// One vertex stream's layout.
#[derive(Debug, Clone, PartialEq)]
pub struct VertexBufferLayout {
    /// Bytes between consecutive elements of the stream.
    pub array_stride: usize,
    /// Whether the stream advances per vertex or per instance.
    pub step_mode: VertexStepMode,
    /// The attributes read out of each stride, in offset order.
    pub attributes: Vec<VertexAttribute>,
}

/// The attributes tile the stride with no gap and no padding: the first
/// starts at offset 0, each next one starts where the previous ended, and
/// the last ends exactly at the stride.
pub open spec fn layout_packed(l: VertexBufferLayout) -> bool {
    &&& l.attributes@.len() > 0
    &&& l.attributes@[0].offset == 0
    &&& forall|i: int|
        0 <= i < l.attributes@.len() - 1 ==> (#[trigger] l.attributes@[i]).offset + format_bytes(
            l.attributes@[i].format,
        ) == l.attributes@[i + 1].offset
    &&& l.attributes@.last().offset + format_bytes(l.attributes@.last().format)
        == l.array_stride
}

/// Consecutive shader binding slots, starting at `first`.
pub open spec fn locations_from(l: VertexBufferLayout, first: int) -> bool {
    forall|i: int|
        0 <= i < l.attributes@.len() ==> (#[trigger] l.attributes@[i]).shader_location == first + i
}

/// How primitives are assembled.
#[derive(Debug, Clone, Copy, PartialEq, Eq, Structural)]
pub enum PrimitiveTopology {
    /// Every three indices form one triangle.
    TriangleList,
}

/// Which winding a front face has.
#[derive(Debug, Clone, Copy, PartialEq, Eq, Structural)]
pub enum FrontFace {
    /// Clockwise front faces.
    Cw,
}

/// Width of one index in the index buffer.
#[derive(Debug, Clone, Copy, PartialEq, Eq, Structural)]
pub enum IndexFormat {
    /// 16-bit indices.
    Uint16,
}

/// The whole pipeline configuration.
#[derive(Debug, Clone, PartialEq)]
pub struct PipelineConfig {
    /// Stream 0: the unit-quad corner, stepped per vertex.
    pub vertex_layout: VertexBufferLayout,
    /// Stream 1: the full instance record, stepped per instance.
    pub instance_layout: VertexBufferLayout,
    /// Alpha blending of the single color target.
    pub blend: BlendState,
    /// Primitive assembly.
    pub topology: PrimitiveTopology,
    /// Front-face winding.
    pub front_face: FrontFace,
    /// Index width of the index buffer.
    pub index_format: IndexFormat,
    /// Samples per pixel: single-sampled.
    pub sample_count: u32,
    /// Multisample mask: all samples enabled.
    pub sample_mask: u64,
    /// Whether alpha-to-coverage is enabled.
    pub alpha_to_coverage_enabled: bool,
}

/// The attribute list of the per-vertex stream: one two-float position.
pub open spec fn vertex_attributes() -> Seq<VertexAttribute> {
    seq![VertexAttribute { shader_location: 0, format: VertexFormat::Float32x2, offset: 0 }]
}

/// The attribute list of the per-instance stream: position, size, fill
/// color, border color, border radius, border width — 2+2+4+4+4+1 floats,
/// tightly packed in that order at binding slots 1 through 6.
pub open spec fn instance_attributes() -> Seq<VertexAttribute> {
    seq![
        VertexAttribute { shader_location: 1, format: VertexFormat::Float32x2, offset: 0 },
        VertexAttribute { shader_location: 2, format: VertexFormat::Float32x2, offset: 8 },
        VertexAttribute { shader_location: 3, format: VertexFormat::Float32x4, offset: 16 },
        VertexAttribute { shader_location: 4, format: VertexFormat::Float32x4, offset: 32 },
        VertexAttribute { shader_location: 5, format: VertexFormat::Float32x4, offset: 48 },
        VertexAttribute { shader_location: 6, format: VertexFormat::Float32, offset: 64 },
    ]
}

/// The configuration the renderer is built with: two packed vertex streams
/// whose strides match the vertex and instance records byte for byte,
/// "over" blending, a clockwise triangle list, 16-bit indices, and no
/// multisampling.
pub fn pipeline_config() -> (c: PipelineConfig)
    ensures
        c.vertex_layout.attributes@ == vertex_attributes(),
        c.vertex_layout.array_stride == VERTEX_BYTES,
        c.vertex_layout.step_mode == VertexStepMode::Vertex,
        layout_packed(c.vertex_layout),
        locations_from(c.vertex_layout, 0),
        c.instance_layout.attributes@ == instance_attributes(),
        c.instance_layout.array_stride == QUAD_BYTES,
        c.instance_layout.step_mode == VertexStepMode::Instance,
        layout_packed(c.instance_layout),
        locations_from(c.instance_layout, 1),
        c.blend == over_blend(),
        c.topology == PrimitiveTopology::TriangleList,
        c.front_face == FrontFace::Cw,
        c.index_format == IndexFormat::Uint16,
        c.sample_count == 1,
        c.sample_mask == u64::MAX,
        !c.alpha_to_coverage_enabled,
{
    let mut vertex_attrs: Vec<VertexAttribute> = Vec::new();
    vertex_attrs.push(
        VertexAttribute { shader_location: 0, format: VertexFormat::Float32x2, offset: 0 },
    );
    let mut instance_attrs: Vec<VertexAttribute> = Vec::new();
    instance_attrs.push(
        VertexAttribute { shader_location: 1, format: VertexFormat::Float32x2, offset: 0 },
    );
    instance_attrs.push(
        VertexAttribute { shader_location: 2, format: VertexFormat::Float32x2, offset: 8 },
    );
    instance_attrs.push(
        VertexAttribute { shader_location: 3, format: VertexFormat::Float32x4, offset: 16 },
    );
    instance_attrs.push(
        VertexAttribute { shader_location: 4, format: VertexFormat::Float32x4, offset: 32 },
    );
    instance_attrs.push(
        VertexAttribute { shader_location: 5, format: VertexFormat::Float32x4, offset: 48 },
    );
    instance_attrs.push(
        VertexAttribute { shader_location: 6, format: VertexFormat::Float32, offset: 64 },
    );
    proof {
        assert(vertex_attrs@ =~= vertex_attributes());
        assert(instance_attrs@ =~= instance_attributes());
    }
    let c = PipelineConfig {
        vertex_layout: VertexBufferLayout {
            array_stride: VERTEX_BYTES,
            step_mode: VertexStepMode::Vertex,
            attributes: vertex_attrs,
        },
        instance_layout: VertexBufferLayout {
            array_stride: QUAD_BYTES,
            step_mode: VertexStepMode::Instance,
            attributes: instance_attrs,
        },
        blend: BlendState {
            color: BlendComponent {
                src_factor: BlendFactor::SrcAlpha,
                dst_factor: BlendFactor::OneMinusSrcAlpha,
                operation: BlendOperation::Add,
            },
            alpha: BlendComponent {
                src_factor: BlendFactor::One,
                dst_factor: BlendFactor::OneMinusSrcAlpha,
                operation: BlendOperation::Add,
            },
        },
        topology: PrimitiveTopology::TriangleList,
        front_face: FrontFace::Cw,
        index_format: IndexFormat::Uint16,
        sample_count: 1,
        sample_mask: u64::MAX,
        alpha_to_coverage_enabled: false,
    };
    c
}

} // verus!
