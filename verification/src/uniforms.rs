//! The per-draw uniform block: a 4x4 transform matrix, a scale factor, and
//! explicit tail padding.
//!
//! The GPU aligns a uniform block to its largest member; the matrix aligns
//! to 16 bytes, so three padding words keep the whole record a multiple of
//! 16 bytes. Matrix cells and the scale are 32-bit floats on the GPU and
//! are carried here as their bit patterns.

use vstd::prelude::*;

verus! {

use vstd::bytes::spec_u32_to_le_bytes;
use crate::codec::lemma_words_le_bytes_app;
use crate::codec::lemma_words_le_bytes_len;
use crate::codec::words_le_bytes;
use crate::codec::words_to_le_bytes;
use crate::quad::F32_ONE_BITS;
use crate::quad::F32_ZERO_BITS;

/// Number of 32-bit words in the uniform block: 16 matrix cells, the scale,
/// and three padding words.
pub const UNIFORM_WORDS: usize = 20;

/// Size in bytes of the uniform block.
pub const UNIFORM_BYTES: usize = 80;

/// Alignment in bytes that the block's largest member (the matrix) demands.
pub const UNIFORM_ALIGN: usize = 16;

/// A 4x4 transform matrix, consumed as an opaque block of 16 float bit
/// patterns in column-major cell order.
#[derive(Debug, Clone, Copy, PartialEq)]
pub struct Transformation {
    /// The 16 matrix cells.
    pub cells: [u32; 16],
}

/// The cells of the identity matrix: ones on the diagonal, zeroes elsewhere.
pub open spec fn identity_cells() -> Seq<u32> {
    seq![
        F32_ONE_BITS, F32_ZERO_BITS, F32_ZERO_BITS, F32_ZERO_BITS,
        F32_ZERO_BITS, F32_ONE_BITS, F32_ZERO_BITS, F32_ZERO_BITS,
        F32_ZERO_BITS, F32_ZERO_BITS, F32_ONE_BITS, F32_ZERO_BITS,
        F32_ZERO_BITS, F32_ZERO_BITS, F32_ZERO_BITS, F32_ONE_BITS,
    ]
}

impl Transformation {
    /// The identity transform.
    pub fn identity() -> (t: Transformation)
        ensures
            t.cells@ =~= identity_cells(),
    {
        Transformation {
            cells: [
                F32_ONE_BITS, F32_ZERO_BITS, F32_ZERO_BITS, F32_ZERO_BITS,
                F32_ZERO_BITS, F32_ONE_BITS, F32_ZERO_BITS, F32_ZERO_BITS,
                F32_ZERO_BITS, F32_ZERO_BITS, F32_ONE_BITS, F32_ZERO_BITS,
                F32_ZERO_BITS, F32_ZERO_BITS, F32_ZERO_BITS, F32_ONE_BITS,
            ],
        }
    }
}

/// The uniform block shared by every instance of one draw call.
#[derive(Debug, Clone, Copy, PartialEq)]
pub struct Uniforms {
    /// The transform matrix cells, first in the block.
    pub transform: [u32; 16],
    /// The scale factor, directly after the matrix.
    pub scale: u32,
    /// Explicit padding, always zero, keeping the block 16-byte aligned.
    pub padding: [u32; 3],
}

/// The block as its 20 words, in buffer order.
pub open spec fn uniform_words(u: Uniforms) -> Seq<u32> {
    u.transform@ + seq![u.scale] + u.padding@
}

/// The buffer image of the uniform block.
pub open spec fn uniform_le_bytes(u: Uniforms) -> Seq<u8> {
    words_le_bytes(uniform_words(u))
}

impl Uniforms {
    /// A block carrying the given transform and scale, with zero padding.
    pub fn new(transformation: Transformation, scale: u32) -> (u: Uniforms)
        ensures
            u.transform@ == transformation.cells@,
            u.scale == scale,
            u.padding@ =~= seq![0u32, 0u32, 0u32],
    {
        Uniforms { transform: transformation.cells, scale, padding: [0u32, 0u32, 0u32] }
    }

    /// A block carrying the given raw matrix cells and scale, zero padding.
    pub fn from_a(transformation: [u32; 16], scale: u32) -> (u: Uniforms)
        ensures
            u.transform@ == transformation@,
            u.scale == scale,
            u.padding@ =~= seq![0u32, 0u32, 0u32],
    {
        Uniforms { transform: transformation, scale, padding: [0u32, 0u32, 0u32] }
    }
}

impl Default for Uniforms {
    /// The identity transform at scale 1.0.
    fn default() -> (u: Uniforms)
        ensures
            u.transform@ == identity_cells(),
            u.scale == F32_ONE_BITS,
            u.padding@ =~= seq![0u32, 0u32, 0u32],
    {
        Uniforms::new(Transformation::identity(), F32_ONE_BITS)
    }
}

/// Writes the uniform block exactly as the uniform buffer holds it.
pub fn uniforms_to_bytes(u: &Uniforms) -> (r: Vec<u8>)
    ensures
        r@ == uniform_le_bytes(*u),
        r@.len() == UNIFORM_BYTES,
{
    let mut ws: Vec<u32> = Vec::new();
    let mut i: usize = 0;
    while i < 16
        invariant
            i <= 16,
            ws@ == u.transform@.take(i as int),
        decreases 16 - i,
    {
        ws.push(u.transform[i]);
        proof {
            assert(u.transform@.take(i as int).push(u.transform@[i as int]) =~= u.transform@.take(
                i + 1,
            ));
        }
        i = i + 1;
    }
    proof {
        assert(u.transform@.take(16) =~= u.transform@);
    }
    ws.push(u.scale);
    ws.push(u.padding[0]);
    ws.push(u.padding[1]);
    ws.push(u.padding[2]);
    proof {
        assert(ws@ =~= uniform_words(*u));
        lemma_words_le_bytes_len(uniform_words(*u));
    }
    words_to_le_bytes(&ws)
}

/// The uniform block layout: the whole block is a multiple of 16 bytes, the
/// transform matrix occupies the first 64 bytes, the scale the next 4, and
/// the padding words the remaining 12.
pub proof fn lemma_uniform_layout(u: Uniforms)
    ensures
        uniform_le_bytes(u).len() == UNIFORM_BYTES,
        UNIFORM_BYTES as int % UNIFORM_ALIGN as int == 0,
        uniform_le_bytes(u).subrange(0, 64) == words_le_bytes(u.transform@),
        uniform_le_bytes(u).subrange(64, 68) == spec_u32_to_le_bytes(u.scale),
        uniform_le_bytes(u).subrange(68, 80) == words_le_bytes(u.padding@),
{
    let head = u.transform@ + seq![u.scale];
    lemma_words_le_bytes_len(uniform_words(u));
    lemma_words_le_bytes_len(u.transform@);
    lemma_words_le_bytes_len(head);
    lemma_words_le_bytes_len(u.padding@);
    lemma_words_le_bytes_len(seq![u.scale]);
    lemma_words_le_bytes_app(head, u.padding@);
    lemma_words_le_bytes_app(u.transform@, seq![u.scale]);
    assert(words_le_bytes(seq![u.scale]) =~= spec_u32_to_le_bytes(u.scale)) by {
        assert(seq![u.scale].drop_last() =~= Seq::<u32>::empty());
        assert(words_le_bytes(seq![u.scale]) =~= words_le_bytes(Seq::<u32>::empty())
            + spec_u32_to_le_bytes(u.scale));
        vstd::bytes::lemma_auto_spec_u32_to_from_le_bytes();
    }
    assert(uniform_words(u) == head + u.padding@);
    assert(uniform_le_bytes(u).subrange(0, 64) =~= words_le_bytes(u.transform@));
    assert(uniform_le_bytes(u).subrange(64, 68) =~= spec_u32_to_le_bytes(u.scale));
    assert(uniform_le_bytes(u).subrange(68, 80) =~= words_le_bytes(u.padding@));
}

} // verus!
