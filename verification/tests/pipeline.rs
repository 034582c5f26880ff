//! The pipeline configuration value: vertex-stream layouts, blend state,
//! primitive and multisample state.

use quad_batch::config::{
    pipeline_config, BlendFactor, BlendOperation, FrontFace, IndexFormat, PrimitiveTopology,
    VertexFormat, VertexStepMode,
};
use quad_batch::quad::{QUAD_BYTES, VERTEX_BYTES};

#[test]
fn vertex_stream_is_one_position_per_vertex() {
    let c = pipeline_config();
    assert_eq!(c.vertex_layout.array_stride, VERTEX_BYTES);
    assert_eq!(c.vertex_layout.step_mode, VertexStepMode::Vertex);
    assert_eq!(c.vertex_layout.attributes.len(), 1);
    let a = &c.vertex_layout.attributes[0];
    assert_eq!(a.shader_location, 0);
    assert_eq!(a.format, VertexFormat::Float32x2);
    assert_eq!(a.offset, 0);
}

#[test]
fn instance_stream_packs_the_record() {
    let c = pipeline_config();
    let l = &c.instance_layout;
    assert_eq!(l.array_stride, QUAD_BYTES);
    assert_eq!(l.step_mode, VertexStepMode::Instance);

    // 2, 2, 4, 4, 4, 1 floats at binding slots 1..=6, tightly packed.
    let expected = [
        (1, VertexFormat::Float32x2, 0),
        (2, VertexFormat::Float32x2, 8),
        (3, VertexFormat::Float32x4, 16),
        (4, VertexFormat::Float32x4, 32),
        (5, VertexFormat::Float32x4, 48),
        (6, VertexFormat::Float32, 64),
    ];
    assert_eq!(l.attributes.len(), expected.len());
    for (attr, (loc, fmt, off)) in l.attributes.iter().zip(expected.iter()) {
        assert_eq!(attr.shader_location, *loc);
        assert_eq!(attr.format, *fmt);
        assert_eq!(attr.offset, *off);
    }

    // The attributes tile the stride with no gap.
    let mut end = 0;
    for attr in &l.attributes {
        assert_eq!(attr.offset, end);
        end += match attr.format {
            VertexFormat::Float32 => 4,
            VertexFormat::Float32x2 => 8,
            VertexFormat::Float32x4 => 16,
        };
    }
    assert_eq!(end as usize, l.array_stride);
}

#[test]
fn blend_state_is_over_compositing() {
    let c = pipeline_config();
    assert_eq!(c.blend.color.src_factor, BlendFactor::SrcAlpha);
    assert_eq!(c.blend.color.dst_factor, BlendFactor::OneMinusSrcAlpha);
    assert_eq!(c.blend.color.operation, BlendOperation::Add);
    assert_eq!(c.blend.alpha.src_factor, BlendFactor::One);
    assert_eq!(c.blend.alpha.dst_factor, BlendFactor::OneMinusSrcAlpha);
    assert_eq!(c.blend.alpha.operation, BlendOperation::Add);
}

#[test]
fn primitive_and_sample_state_are_fixed() {
    let c = pipeline_config();
    assert_eq!(c.topology, PrimitiveTopology::TriangleList);
    assert_eq!(c.front_face, FrontFace::Cw);
    assert_eq!(c.index_format, IndexFormat::Uint16);
    assert_eq!(c.sample_count, 1);
    assert_eq!(c.sample_mask, u64::MAX);
    assert!(!c.alpha_to_coverage_enabled);
}
