//! What the pipeline's blend state does to a pixel.
//!
//! The blend equations run on the GPU; this module states their meaning
//! over exact fixed-point values, so order-dependence facts — an opaque
//! quad covers what is under it, a fully transparent quad changes nothing —
//! are theorems about the configured `BlendState`, not folklore. A channel
//! or alpha value v stands for the real value v / `FIXED_ONE`.

use vstd::prelude::*;

verus! {

use vstd::arithmetic::div_mod::lemma_div_is_ordered;
use vstd::arithmetic::div_mod::lemma_div_multiples_vanish;
use crate::config::BlendComponent;
use crate::config::BlendFactor;
use crate::config::BlendOperation;
use crate::config::BlendState;
use crate::config::over_blend;

/// The fixed-point scale: this value stands for 1.0, so an alpha of
/// `FIXED_ONE` is fully opaque and 0 is fully transparent.
pub const FIXED_ONE: u32 = 65536;

/// The weight a blend factor gives its operand, at the given source alpha.
pub open spec fn factor_value(f: BlendFactor, src_alpha: int) -> int {
    match f {
        BlendFactor::Zero => 0,
        BlendFactor::One => FIXED_ONE as int,
        BlendFactor::SrcAlpha => src_alpha,
        BlendFactor::OneMinusSrcAlpha => FIXED_ONE - src_alpha,
    }
}

/// One blended channel: each operand weighted by its factor, combined by
/// the component's operation, rescaled by `FIXED_ONE`.
pub open spec fn blend_channel(comp: BlendComponent, src: int, dst: int, src_alpha: int) -> int {
    match comp.operation {
        BlendOperation::Add => (src * factor_value(comp.src_factor, src_alpha) + dst
            * factor_value(comp.dst_factor, src_alpha)) / (FIXED_ONE as int),
    }
}

/// A whole blended pixel (r, g, b, a): the color channels blend under the
/// state's color equation, the alpha channel under its alpha equation, all
/// weighted by the source alpha.
pub open spec fn blend_pixel(
    bs: BlendState,
    src: (int, int, int, int),
    dst: (int, int, int, int),
) -> (int, int, int, int) {
    (
        blend_channel(bs.color, src.0, dst.0, src.3),
        blend_channel(bs.color, src.1, dst.1, src.3),
        blend_channel(bs.color, src.2, dst.2, src.3),
        blend_channel(bs.alpha, src.3, dst.3, src.3),
    )
}

/// Painter's algorithm: the layers blend over the existing contents in
/// submission order, each over the result of all earlier ones.
pub open spec fn composite(
    bs: BlendState,
    dst: (int, int, int, int),
    layers: Seq<(int, int, int, int)>,
) -> (int, int, int, int)
    decreases layers.len(),
{
    if layers.len() == 0 {
        dst
    } else {
        blend_pixel(bs, layers.last(), composite(bs, dst, layers.drop_last()))
    }
}

/// (x * FIXED_ONE) / FIXED_ONE == x: the rescale of a full weight is exact.
proof fn lemma_full_weight_exact(x: int)
    ensures
        (x * (FIXED_ONE as int)) / (FIXED_ONE as int) == x,
{
    let one = FIXED_ONE as int;
    lemma_div_multiples_vanish(x, one);
    assert(one * x == x * one) by (nonlinear_arith);
}

/// Under "over" blending, an opaque source replaces the destination: the
/// blended pixel is the source pixel, whatever was below.
pub proof fn lemma_opaque_source_wins(src: (int, int, int, int), dst: (int, int, int, int))
    requires
        src.3 == FIXED_ONE,
    ensures
        blend_pixel(over_blend(), src, dst) == src,
{
    lemma_full_weight_exact(src.0);
    lemma_full_weight_exact(src.1);
    lemma_full_weight_exact(src.2);
    lemma_full_weight_exact(src.3);
}

/// Under "over" blending, a fully transparent source leaves the
/// destination unchanged, whatever its color channels hold.
pub proof fn lemma_transparent_source_preserves(
    src: (int, int, int, int),
    dst: (int, int, int, int),
)
    requires
        src.3 == 0,
    ensures
        blend_pixel(over_blend(), src, dst) == dst,
{
    lemma_full_weight_exact(dst.0);
    lemma_full_weight_exact(dst.1);
    lemma_full_weight_exact(dst.2);
    lemma_full_weight_exact(dst.3);
}

/// Compositing one more layer blends it over the composite of the rest.
pub proof fn lemma_composite_push(
    bs: BlendState,
    dst: (int, int, int, int),
    layers: Seq<(int, int, int, int)>,
    q: (int, int, int, int),
)
    ensures
        composite(bs, dst, layers.push(q)) == blend_pixel(bs, q, composite(bs, dst, layers)),
{
    assert(layers.push(q).drop_last() =~= layers);
    assert(layers.push(q).last() == q);
}

/// Order preservation, seen at one pixel: when the last submitted layer is
/// opaque there, the final pixel is that layer's, not any earlier one's.
pub proof fn lemma_last_opaque_wins(
    dst: (int, int, int, int),
    layers: Seq<(int, int, int, int)>,
)
    requires
        layers.len() >= 1,
        layers.last().3 == FIXED_ONE,
    ensures
        composite(over_blend(), dst, layers) == layers.last(),
{
    lemma_opaque_source_wins(
        layers.last(),
        composite(over_blend(), dst, layers.drop_last()),
    );
}

/// Drawing a fully transparent layer over any content is a no-op.
pub proof fn lemma_transparent_layer_noop(
    dst: (int, int, int, int),
    layers: Seq<(int, int, int, int)>,
    q: (int, int, int, int),
)
    requires
        q.3 == 0,
    ensures
        composite(over_blend(), dst, layers.push(q)) == composite(over_blend(), dst, layers),
{
    lemma_composite_push(over_blend(), dst, layers, q);
    lemma_transparent_source_preserves(q, composite(over_blend(), dst, layers));
}

/// One pixel with fixed-point channels, each at most `FIXED_ONE`.
#[derive(Debug, Clone, Copy, PartialEq, Eq, Structural)]
pub struct Pixel {
    /// The red channel.
    pub r: u32,
    /// The green channel.
    pub g: u32,
    /// The blue channel.
    pub b: u32,
    /// The alpha channel.
    pub a: u32,
}

impl View for Pixel {
    type V = (int, int, int, int);

    open spec fn view(&self) -> (int, int, int, int) {
        (self.r as int, self.g as int, self.b as int, self.a as int)
    }
}

/// Every channel is a fixed-point fraction in [0, 1].
pub open spec fn pixel_wf(p: Pixel) -> bool {
    p.r <= FIXED_ONE && p.g <= FIXED_ONE && p.b <= FIXED_ONE && p.a <= FIXED_ONE
}

/// One exactly computed "over" channel: src * w + dst * (FIXED_ONE - w),
/// rescaled.
fn over_channel(src: u32, dst: u32, w: u32) -> (out: u32)
    requires
        src <= FIXED_ONE,
        dst <= FIXED_ONE,
        w <= FIXED_ONE,
    ensures
        out == (src * w + dst * (FIXED_ONE - w)) / (FIXED_ONE as int),
        out <= FIXED_ONE,
{
    let one: u64 = FIXED_ONE as u64;
    let s = src as u64;
    let d = dst as u64;
    let wv = w as u64;
    proof {
        assert(s * wv <= one * wv && d * (one - wv) <= one * (one - wv)) by (nonlinear_arith)
            requires
                s <= one,
                d <= one,
                wv <= one,
                one >= 1,
        ;
        assert(one * wv + one * (one - wv) == one * one) by (nonlinear_arith);
        lemma_div_is_ordered(
            (s * wv + d * (one - wv)) as int,
            (one * one) as int,
            one as int,
        );
        lemma_full_weight_exact(one as int);
    }
    let num = s * wv + d * (one - wv);
    let out = num / one;
    out as u32
}

/// Blends one source pixel over one destination pixel exactly as the
/// pipeline's "over" blend state does.
pub fn blend_over(src: Pixel, dst: Pixel) -> (out: Pixel)
    requires
        pixel_wf(src),
        pixel_wf(dst),
    ensures
        out@ == blend_pixel(over_blend(), src@, dst@),
        pixel_wf(out),
{
    let r = over_channel(src.r, dst.r, src.a);
    let g = over_channel(src.g, dst.g, src.a);
    let b = over_channel(src.b, dst.b, src.a);
    let a = over_channel(FIXED_ONE, dst.a, src.a);
    proof {
        assert(FIXED_ONE * src.a + dst.a * (FIXED_ONE - src.a) == src.a * FIXED_ONE + dst.a * (
        FIXED_ONE - src.a)) by (nonlinear_arith);
    }
    Pixel { r, g, b, a }
}

/// The pixels of a layer sequence.
pub open spec fn pixels_view(s: Seq<Pixel>) -> Seq<(int, int, int, int)> {
    s.map_values(|p: Pixel| p@)
}

/// Composites the layers over the background in submission order.
pub fn composite_over(background: Pixel, layers: &Vec<Pixel>) -> (out: Pixel)
    requires
        pixel_wf(background),
        forall|i: int| 0 <= i < layers@.len() ==> pixel_wf(#[trigger] layers@[i]),
    ensures
        out@ == composite(over_blend(), background@, pixels_view(layers@)),
        pixel_wf(out),
{
    let mut acc = background;
    let mut i: usize = 0;
    while i < layers.len()
        invariant
            i <= layers@.len(),
            pixel_wf(acc),
            forall|j: int| 0 <= j < layers@.len() ==> pixel_wf(#[trigger] layers@[j]),
            acc@ == composite(over_blend(), background@, pixels_view(layers@).take(i as int)),
        decreases layers@.len() - i,
    {
        let next = blend_over(layers[i], acc);
        proof {
            lemma_composite_push(
                over_blend(),
                background@,
                pixels_view(layers@).take(i as int),
                layers@[i as int]@,
            );
            assert(pixels_view(layers@).take(i as int).push(layers@[i as int]@) =~= pixels_view(
                layers@,
            ).take(i + 1));
        }
        acc = next;
        i = i + 1;
    }
    proof {
        assert(pixels_view(layers@).take(layers@.len() as int) =~= pixels_view(layers@));
    }
    acc
}

} // verus!
