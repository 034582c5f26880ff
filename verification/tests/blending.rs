//! Blend-state behaviour on concrete pixels: painter's-algorithm ordering
//! and the transparent no-op, plus an exact mid-alpha value.

use quad_batch::blend::{blend_over, composite_over, Pixel, FIXED_ONE};

fn px(r: u32, g: u32, b: u32, a: u32) -> Pixel {
    Pixel { r, g, b, a }
}

#[test]
fn opaque_layer_covers_what_is_under_it() {
    // Two overlapping quads in order [a, b]; b's fill is opaque, so the
    // final pixel is b's color, not a's.
    let background = px(0, 0, 0, FIXED_ONE);
    let a = px(FIXED_ONE, 0, 0, FIXED_ONE / 2);
    let b = px(0, FIXED_ONE, 0, FIXED_ONE);
    let out = composite_over(background, &vec![a, b]);
    assert_eq!(out, b);
}

#[test]
fn order_matters_for_overlapping_quads() {
    let background = px(0, 0, 0, FIXED_ONE);
    let red = px(FIXED_ONE, 0, 0, FIXED_ONE);
    let green = px(0, FIXED_ONE, 0, FIXED_ONE);
    let red_then_green = composite_over(background, &vec![red, green]);
    let green_then_red = composite_over(background, &vec![green, red]);
    assert_eq!(red_then_green, green);
    assert_eq!(green_then_red, red);
    assert_ne!(red_then_green, green_then_red);
}

#[test]
fn transparent_layer_changes_nothing() {
    let dst = px(12345, 23456, 34567, 45678);
    let clear = px(FIXED_ONE, FIXED_ONE, FIXED_ONE, 0);
    let out = blend_over(clear, dst);
    assert_eq!(out, dst);

    let background = px(0, 0, 0, FIXED_ONE);
    let a = px(FIXED_ONE, 0, 0, FIXED_ONE / 2);
    let with_clear = composite_over(background, &vec![a, clear]);
    let without = composite_over(background, &vec![a]);
    assert_eq!(with_clear, without);
}

#[test]
fn half_alpha_mixes_exactly() {
    // src = white at 50% alpha over black: every color channel lands at
    // exactly half, and the result is fully opaque.
    let half = FIXED_ONE / 2;
    let src = px(FIXED_ONE, FIXED_ONE, FIXED_ONE, half);
    let dst = px(0, 0, 0, FIXED_ONE);
    let out = blend_over(src, dst);
    assert_eq!(out, px(half, half, half, FIXED_ONE));
}
