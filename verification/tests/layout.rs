//! Byte-layout behaviour: record round trips, the uniform block's shape,
//! and the static geometry buffers.

use quad_batch::codec::{le_bytes_to_words, words_to_le_bytes};
use quad_batch::quad::{
    instance_buffer_size, quad_from_bytes, quad_to_bytes, unit_quad_index_bytes,
    unit_quad_indices, unit_quad_vertex_bytes, unit_quad_vertices, Quad, MAX_INSTANCES,
    QUAD_BYTES,
};
use quad_batch::uniforms::{uniforms_to_bytes, Transformation, Uniforms, UNIFORM_BYTES};

fn sample_quad() -> Quad {
    Quad {
        position: [12.5f32.to_bits(), (-3.25f32).to_bits()],
        size: [640.0f32.to_bits(), 480.0f32.to_bits()],
        color: [
            0.1f32.to_bits(),
            0.2f32.to_bits(),
            0.3f32.to_bits(),
            0.75f32.to_bits(),
        ],
        border_color: [
            1.0f32.to_bits(),
            0.0f32.to_bits(),
            0.5f32.to_bits(),
            1.0f32.to_bits(),
        ],
        border_radius: [
            2.0f32.to_bits(),
            4.0f32.to_bits(),
            8.0f32.to_bits(),
            16.0f32.to_bits(),
        ],
        border_width: 1.5f32.to_bits(),
    }
}

#[test]
fn quad_round_trips_bit_exactly() {
    let q = sample_quad();
    let bytes = quad_to_bytes(&q);
    assert_eq!(bytes.len(), QUAD_BYTES);
    let back = quad_from_bytes(&bytes);
    assert_eq!(back, q);
    assert_eq!(back.position, q.position);
    assert_eq!(back.size, q.size);
    assert_eq!(back.color, q.color);
    assert_eq!(back.border_color, q.border_color);
    assert_eq!(back.border_radius, q.border_radius);
    assert_eq!(back.border_width, q.border_width);
}

#[test]
fn quad_bytes_follow_the_attribute_schema() {
    // 2 + 2 + 4 + 4 + 4 + 1 floats, in declared order, little-endian.
    let q = sample_quad();
    let bytes = quad_to_bytes(&q);
    let mut expected = Vec::new();
    for w in [
        q.position[0],
        q.position[1],
        q.size[0],
        q.size[1],
        q.color[0],
        q.color[1],
        q.color[2],
        q.color[3],
        q.border_color[0],
        q.border_color[1],
        q.border_color[2],
        q.border_color[3],
        q.border_radius[0],
        q.border_radius[1],
        q.border_radius[2],
        q.border_radius[3],
        q.border_width,
    ] {
        expected.extend_from_slice(&w.to_le_bytes());
    }
    assert_eq!(bytes, expected);
}

#[test]
fn word_codec_round_trips() {
    let words = vec![0x0403_0201u32, 0xDEAD_BEEF, 0, u32::MAX];
    let bytes = words_to_le_bytes(&words);
    assert_eq!(&bytes[0..4], &[0x01, 0x02, 0x03, 0x04]);
    let back = le_bytes_to_words(&bytes);
    assert_eq!(back, words);
}

#[test]
fn uniform_block_is_sized_and_aligned() {
    let u = Uniforms::new(Transformation::identity(), 1.25f32.to_bits());
    let bytes = uniforms_to_bytes(&u);
    assert_eq!(bytes.len(), UNIFORM_BYTES);
    assert_eq!(UNIFORM_BYTES % 16, 0);

    // The matrix occupies the first 64 bytes.
    let mut expected_head = Vec::new();
    for w in u.transform {
        expected_head.extend_from_slice(&w.to_le_bytes());
    }
    assert_eq!(&bytes[0..64], &expected_head[..]);

    // The scale sits at offset 64, the zero padding fills the rest.
    assert_eq!(&bytes[64..68], &1.25f32.to_bits().to_le_bytes());
    assert_eq!(&bytes[68..80], &[0u8; 12]);
}

#[test]
fn uniforms_carry_the_given_transform_and_scale() {
    let cells = [7u32; 16];
    let u = Uniforms::from_a(cells, 2.0f32.to_bits());
    assert_eq!(u.transform, cells);
    assert_eq!(u.scale, 2.0f32.to_bits());
    assert_eq!(u.padding, [0u32; 3]);

    let d = Uniforms::default();
    assert_eq!(d.scale, 1.0f32.to_bits());
    assert_eq!(d.transform, Transformation::identity().cells);
}

#[test]
fn unit_quad_geometry_is_fixed() {
    let verts = unit_quad_vertices();
    let one = 1.0f32.to_bits();
    let zero = 0.0f32.to_bits();
    assert_eq!(verts[0].position, [zero, zero]);
    assert_eq!(verts[1].position, [one, zero]);
    assert_eq!(verts[2].position, [one, one]);
    assert_eq!(verts[3].position, [zero, one]);

    let indices = unit_quad_indices();
    assert_eq!(indices, [0, 1, 2, 0, 2, 3]);

    let vertex_bytes = unit_quad_vertex_bytes();
    let mut expected = Vec::new();
    for f in [0.0f32, 0.0, 1.0, 0.0, 1.0, 1.0, 0.0, 1.0] {
        expected.extend_from_slice(&f.to_bits().to_le_bytes());
    }
    assert_eq!(vertex_bytes, expected);

    let index_bytes = unit_quad_index_bytes();
    let mut expected = Vec::new();
    for i in [0u16, 1, 2, 0, 2, 3] {
        expected.extend_from_slice(&i.to_le_bytes());
    }
    assert_eq!(index_bytes, expected);
}

#[test]
fn instance_buffer_holds_one_full_chunk() {
    assert_eq!(instance_buffer_size(), QUAD_BYTES * MAX_INSTANCES);
    assert_eq!(instance_buffer_size(), 6_800_000);
}
