//! The per-instance quad record, the static unit-quad geometry, and the
//! byte layout that the instance buffer and the vertex-attribute
//! declarations both follow.
//!
//! Color, position and size components are 32-bit float fields on the GPU;
//! here each is carried as its 32-bit bit pattern, so that layout and
//! round-trip properties are exact statements about words and bytes.

use vstd::prelude::*;

verus! {

use crate::codec::le_bytes_to_words;
use crate::codec::le_bytes_words;
use crate::codec::lemma_le_bytes_words_roundtrip;
use crate::codec::lemma_words_le_bytes_len;
use crate::codec::words_le_bytes;
use crate::codec::words_to_le_bytes;
use vstd::bytes::spec_u16_to_le_bytes;
use vstd::bytes::u16_to_le_bytes;

/// Largest number of instance records one draw chunk may hold; the instance
/// buffer is allocated once with room for exactly this many records.
pub const MAX_INSTANCES: usize = 100_000;

/// Number of 32-bit fields in one instance record.
pub const QUAD_WORDS: usize = 17;

/// Size in bytes of one instance record: 17 tightly packed 32-bit fields.
pub const QUAD_BYTES: usize = 68;

/// Size in bytes of one unit-quad corner vertex: two 32-bit floats.
pub const VERTEX_BYTES: usize = 8;

/// Bit pattern of the 32-bit float 0.0.
pub const F32_ZERO_BITS: u32 = 0x0000_0000;

/// Bit pattern of the 32-bit float 1.0.
pub const F32_ONE_BITS: u32 = 0x3F80_0000;

/// One renderable rectangle instance. Fields are 32-bit float bit patterns,
/// in the exact order the instance buffer packs them.
#[derive(Debug, Default, Clone, Copy, PartialEq)]
pub struct Quad {
    /// The position of the quad, as two float bit patterns.
    pub position: [u32; 2],
    /// The size of the quad, as two float bit patterns.
    pub size: [u32; 2],
    /// The fill color of the quad, in linear RGBA, as four float bit patterns.
    pub color: [u32; 4],
    /// The border color of the quad, in linear RGBA, as four float bit patterns.
    pub border_color: [u32; 4],
    /// The border radius of each corner, as four float bit patterns.
    pub border_radius: [u32; 4],
    /// The border width, as one float bit pattern.
    pub border_width: u32,
}

impl View for Quad {
    type V = Seq<u32>;

    /// The record as its 17 words, in declared field order.
    open spec fn view(&self) -> Seq<u32> {
        seq![
            self.position@[0],
            self.position@[1],
            self.size@[0],
            self.size@[1],
            self.color@[0],
            self.color@[1],
            self.color@[2],
            self.color@[3],
            self.border_color@[0],
            self.border_color@[1],
            self.border_color@[2],
            self.border_color@[3],
            self.border_radius@[0],
            self.border_radius@[1],
            self.border_radius@[2],
            self.border_radius@[3],
            self.border_width,
        ]
    }
}

/// A rectangle, such as the target bounds of a draw call.
#[derive(Debug, Clone, Copy, PartialEq, Eq, Default)]
pub struct Rectangle<T> {
    /// X coordinate of the top-left corner.
    pub x: T,
    /// Y coordinate of the top-left corner.
    pub y: T,
    /// Width of the rectangle.
    pub width: T,
    /// Height of the rectangle.
    pub height: T,
}

/// One corner of the static unit quad, as two float bit patterns.
#[derive(Debug, Clone, Copy, PartialEq)]
pub struct Vertex {
    /// The corner's position.
    pub position: [u32; 2],
}

/// The words of one quad record, gathered in buffer order.
pub fn quad_to_words(q: &Quad) -> (r: Vec<u32>)
    ensures
        r@ == q@,
{
    let mut r: Vec<u32> = Vec::new();
    r.push(q.position[0]);
    r.push(q.position[1]);
    r.push(q.size[0]);
    r.push(q.size[1]);
    r.push(q.color[0]);
    r.push(q.color[1]);
    r.push(q.color[2]);
    r.push(q.color[3]);
    r.push(q.border_color[0]);
    r.push(q.border_color[1]);
    r.push(q.border_color[2]);
    r.push(q.border_color[3]);
    r.push(q.border_radius[0]);
    r.push(q.border_radius[1]);
    r.push(q.border_radius[2]);
    r.push(q.border_radius[3]);
    r.push(q.border_width);
    proof {
        assert(r@ =~= q@);
    }
    r
}

/// A quad record rebuilt from its 17 words.
pub fn quad_from_words(ws: &Vec<u32>) -> (q: Quad)
    requires
        ws@.len() == QUAD_WORDS,
    ensures
        q@ == ws@,
{
    let q = Quad {
        position: [ws[0], ws[1]],
        size: [ws[2], ws[3]],
        color: [ws[4], ws[5], ws[6], ws[7]],
        border_color: [ws[8], ws[9], ws[10], ws[11]],
        border_radius: [ws[12], ws[13], ws[14], ws[15]],
        border_width: ws[16],
    };
    proof {
        assert(q@ =~= ws@);
    }
    q
}

/// The buffer image of one quad record: its 17 words, little-endian.
pub open spec fn quad_le_bytes(q: Quad) -> Seq<u8> {
    words_le_bytes(q@)
}

/// Writes one quad record exactly as the instance buffer holds it.
pub fn quad_to_bytes(q: &Quad) -> (r: Vec<u8>)
    ensures
        r@ == quad_le_bytes(*q),
        r@.len() == QUAD_BYTES,
{
    let ws = quad_to_words(q);
    let r = words_to_le_bytes(&ws);
    r
}

/// Reads one quad record back from its buffer image.
pub fn quad_from_bytes(bs: &[u8]) -> (q: Quad)
    requires
        bs@.len() == QUAD_BYTES,
    ensures
        q@ == le_bytes_words(bs@),
{
    let ws = le_bytes_to_words(bs);
    assert(ws@.len() == QUAD_WORDS);
    quad_from_words(&ws)
}

/// A quad record written into the instance buffer and read back through the
/// same byte layout reproduces every word, hence every field, bit-exactly.
pub proof fn lemma_quad_bytes_roundtrip(q: Quad)
    ensures
        le_bytes_words(quad_le_bytes(q)) == q@,
{
    lemma_le_bytes_words_roundtrip(q@);
}

/// Two quad records with the same word view agree on every field bit-exactly.
pub proof fn lemma_quad_view_gives_fields(a: Quad, b: Quad)
    requires
        a@ == b@,
    ensures
        a.position@ == b.position@,
        a.size@ == b.size@,
        a.color@ == b.color@,
        a.border_color@ == b.border_color@,
        a.border_radius@ == b.border_radius@,
        a.border_width == b.border_width,
{
    assert(a.position@ =~= b.position@);
    assert(a.size@ =~= b.size@);
    assert(a.color@ =~= b.color@);
    assert(a.border_color@ =~= b.border_color@);
    assert(a.border_radius@ =~= b.border_radius@);
}

/// The four corners of the unit quad, in winding order: (0,0), (1,0),
/// (1,1), (0,1). Every instance is this square, placed and sized by the
/// per-instance attributes.
pub fn unit_quad_vertices() -> (v: [Vertex; 4])
    ensures
        v@[0].position@ =~= seq![F32_ZERO_BITS, F32_ZERO_BITS],
        v@[1].position@ =~= seq![F32_ONE_BITS, F32_ZERO_BITS],
        v@[2].position@ =~= seq![F32_ONE_BITS, F32_ONE_BITS],
        v@[3].position@ =~= seq![F32_ZERO_BITS, F32_ONE_BITS],
{
    [
        Vertex { position: [F32_ZERO_BITS, F32_ZERO_BITS] },
        Vertex { position: [F32_ONE_BITS, F32_ZERO_BITS] },
        Vertex { position: [F32_ONE_BITS, F32_ONE_BITS] },
        Vertex { position: [F32_ZERO_BITS, F32_ONE_BITS] },
    ]
}

/// The fixed triangulation of the unit quad: two triangles over the four
/// corners, six 16-bit indices, each naming a valid corner.
pub fn unit_quad_indices() -> (r: [u16; 6])
    ensures
        r@ =~= seq![0u16, 1u16, 2u16, 0u16, 2u16, 3u16],
        forall|i: int| 0 <= i < 6 ==> r@[i] < 4,
{
    [0u16, 1u16, 2u16, 0u16, 2u16, 3u16]
}

/// The corner words of the unit quad, in vertex-buffer order.
pub open spec fn unit_quad_vertex_words() -> Seq<u32> {
    seq![
        F32_ZERO_BITS, F32_ZERO_BITS,
        F32_ONE_BITS, F32_ZERO_BITS,
        F32_ONE_BITS, F32_ONE_BITS,
        F32_ZERO_BITS, F32_ONE_BITS,
    ]
}

/// The immutable vertex buffer's image: the four unit-quad corners.
pub fn unit_quad_vertex_bytes() -> (r: Vec<u8>)
    ensures
        r@ == words_le_bytes(unit_quad_vertex_words()),
        r@.len() == 4 * VERTEX_BYTES,
{
    let mut ws: Vec<u32> = Vec::new();
    ws.push(F32_ZERO_BITS);
    ws.push(F32_ZERO_BITS);
    ws.push(F32_ONE_BITS);
    ws.push(F32_ZERO_BITS);
    ws.push(F32_ONE_BITS);
    ws.push(F32_ONE_BITS);
    ws.push(F32_ZERO_BITS);
    ws.push(F32_ONE_BITS);
    proof {
        assert(ws@ =~= unit_quad_vertex_words());
    }
    words_to_le_bytes(&ws)
}

/// The immutable index buffer's image: the six indices, little-endian.
pub fn unit_quad_index_bytes() -> (r: Vec<u8>)
    ensures
        r@ == spec_u16_to_le_bytes(0) + spec_u16_to_le_bytes(1) + spec_u16_to_le_bytes(2)
            + spec_u16_to_le_bytes(0) + spec_u16_to_le_bytes(2) + spec_u16_to_le_bytes(3),
        r@.len() == 12,
{
    let mut r: Vec<u8> = Vec::new();
    let mut b = u16_to_le_bytes(0);
    r.append(&mut b);
    let mut b = u16_to_le_bytes(1);
    r.append(&mut b);
    let mut b = u16_to_le_bytes(2);
    r.append(&mut b);
    let mut b = u16_to_le_bytes(0);
    r.append(&mut b);
    let mut b = u16_to_le_bytes(2);
    r.append(&mut b);
    let mut b = u16_to_le_bytes(3);
    r.append(&mut b);
    r
}

/// Size in bytes of the reusable instance buffer: room for one full chunk.
pub fn instance_buffer_size() -> (r: usize)
    ensures
        r == QUAD_BYTES * MAX_INSTANCES,
{
    QUAD_BYTES * MAX_INSTANCES
}

} // verus!
