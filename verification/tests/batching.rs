//! Chunking and draw-plan behaviour on concrete instance sequences.

use quad_batch::batch::{plan_chunks, plan_draw};
use quad_batch::quad::{quad_to_bytes, Quad, Rectangle, MAX_INSTANCES, QUAD_BYTES};
use quad_batch::uniforms::Transformation;

fn bounds() -> Rectangle<u32> {
    Rectangle { x: 0, y: 0, width: 800, height: 600 }
}

#[test]
fn empty_sequence_plans_no_batches() {
    let chunks = plan_chunks(0, MAX_INSTANCES);
    assert_eq!(chunks.len(), 0);

    let plan = plan_draw(&[], Transformation::identity(), 1.0f32.to_bits(), bounds());
    assert_eq!(plan.batches.len(), 0);
}

#[test]
fn single_instance_gives_one_batch_of_one() {
    let chunks = plan_chunks(1, MAX_INSTANCES);
    assert_eq!(chunks, vec![(0, 1)]);

    let quads = [Quad::default()];
    let plan = plan_draw(&quads, Transformation::identity(), 1.0f32.to_bits(), bounds());
    assert_eq!(plan.batches.len(), 1);
    assert_eq!(plan.batches[0].first_instance, 0);
    assert_eq!(plan.batches[0].instance_count, 1);
    assert_eq!(plan.batches[0].instance_bytes.len(), QUAD_BYTES);
}

#[test]
fn quarter_million_instances_give_three_batches() {
    let chunks = plan_chunks(250_000, MAX_INSTANCES);
    assert_eq!(
        chunks,
        vec![(0, 100_000), (100_000, 100_000), (200_000, 50_000)]
    );
}

#[test]
fn chunk_count_is_ceiling_of_n_over_c() {
    // Exact multiples: the last chunk is full.
    assert_eq!(plan_chunks(100_000, MAX_INSTANCES), vec![(0, 100_000)]);
    assert_eq!(
        plan_chunks(200_000, MAX_INSTANCES),
        vec![(0, 100_000), (100_000, 100_000)]
    );
    // One over a multiple: a last chunk of one.
    assert_eq!(
        plan_chunks(100_001, MAX_INSTANCES),
        vec![(0, 100_000), (100_000, 1)]
    );
    // Small capacities.
    assert_eq!(plan_chunks(7, 3), vec![(0, 3), (3, 3), (6, 1)]);
    assert_eq!(plan_chunks(6, 3), vec![(0, 3), (3, 3)]);
    assert_eq!(plan_chunks(1, 1), vec![(0, 1)]);
    assert_eq!(plan_chunks(5, 8), vec![(0, 5)]);
}

#[test]
fn chunks_tile_the_sequence_in_order() {
    let chunks = plan_chunks(250_000, MAX_INSTANCES);
    let mut expected_start = 0;
    for &(start, len) in &chunks {
        assert_eq!(start, expected_start);
        assert!(len >= 1 && len <= MAX_INSTANCES);
        expected_start = start + len;
    }
    assert_eq!(expected_start, 250_000);
}

#[test]
fn batch_bytes_are_the_records_in_input_order() {
    let mut a = Quad::default();
    a.position = [1.0f32.to_bits(), 2.0f32.to_bits()];
    let mut b = Quad::default();
    b.position = [3.0f32.to_bits(), 4.0f32.to_bits()];
    let mut c = Quad::default();
    c.border_width = 2.5f32.to_bits();

    let quads = [a, b, c];
    let plan = plan_draw(&quads, Transformation::identity(), 1.0f32.to_bits(), bounds());
    assert_eq!(plan.batches.len(), 1);
    let batch = &plan.batches[0];
    assert_eq!(batch.instance_count, 3);
    assert_eq!(batch.instance_bytes.len(), 3 * QUAD_BYTES);

    let mut expected = Vec::new();
    expected.extend_from_slice(&quad_to_bytes(&a));
    expected.extend_from_slice(&quad_to_bytes(&b));
    expected.extend_from_slice(&quad_to_bytes(&c));
    assert_eq!(batch.instance_bytes, expected);
}

#[test]
fn large_plan_preserves_chunk_structure() {
    let quads = vec![Quad::default(); 250_000];
    let plan = plan_draw(&quads, Transformation::identity(), 2.0f32.to_bits(), bounds());
    assert_eq!(plan.batches.len(), 3);
    let sizes: Vec<usize> = plan.batches.iter().map(|b| b.instance_count).collect();
    assert_eq!(sizes, vec![100_000, 100_000, 50_000]);
    let starts: Vec<usize> = plan.batches.iter().map(|b| b.first_instance).collect();
    assert_eq!(starts, vec![0, 100_000, 200_000]);
    for b in &plan.batches {
        assert_eq!(b.instance_bytes.len(), b.instance_count * QUAD_BYTES);
    }
}
