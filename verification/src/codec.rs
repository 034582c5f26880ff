//! Little-endian byte encoding of sequences of 32-bit words.
//!
//! GPU-visible records (instance attributes, the uniform block) are laid out
//! as tightly packed 32-bit fields. This module gives that layout a
//! mathematical form: a record is a sequence of words, and its buffer image
//! is the concatenation of each word's four little-endian bytes.

use vstd::prelude::*;

verus! {

use vstd::bytes::lemma_auto_spec_u32_to_from_le_bytes;
use vstd::bytes::spec_u32_from_le_bytes;
use vstd::bytes::spec_u32_to_le_bytes;
use vstd::bytes::u32_from_le_bytes;
use vstd::bytes::u32_to_le_bytes;
use vstd::slice::slice_subrange;

/// The little-endian buffer image of a sequence of 32-bit words.
pub open spec fn words_le_bytes(ws: Seq<u32>) -> Seq<u8>
    decreases ws.len(),
{
    if ws.len() == 0 {
        Seq::empty()
    } else {
        words_le_bytes(ws.drop_last()) + spec_u32_to_le_bytes(ws.last())
    }
}

/// The words read back from a little-endian buffer image.
pub open spec fn le_bytes_words(bs: Seq<u8>) -> Seq<u32> {
    Seq::new((bs.len() / 4) as nat, |i: int| spec_u32_from_le_bytes(bs.subrange(4 * i, 4 * i + 4)))
}

/// Encoding n words takes exactly 4 * n bytes.
pub proof fn lemma_words_le_bytes_len(ws: Seq<u32>)
    ensures
        words_le_bytes(ws).len() == 4 * ws.len(),
    decreases ws.len(),
{
    lemma_auto_spec_u32_to_from_le_bytes();
    if ws.len() > 0 {
        lemma_words_le_bytes_len(ws.drop_last());
    }
}

/// The encoding of a concatenation is the concatenation of the encodings.
pub proof fn lemma_words_le_bytes_app(a: Seq<u32>, b: Seq<u32>)
    ensures
        words_le_bytes(a + b) == words_le_bytes(a) + words_le_bytes(b),
    decreases b.len(),
{
    if b.len() == 0 {
        assert(a + b =~= a);
        assert(words_le_bytes(a) + words_le_bytes(b) =~= words_le_bytes(a));
    } else {
        lemma_words_le_bytes_app(a, b.drop_last());
        assert((a + b).drop_last() =~= a + b.drop_last());
        assert((a + b).last() == b.last());
        assert(words_le_bytes(a) + words_le_bytes(b) =~= (words_le_bytes(a) + words_le_bytes(
            b.drop_last(),
        )) + spec_u32_to_le_bytes(b.last()));
    }
}

/// Decoding inverts encoding: every word sequence is read back bit-exactly.
pub proof fn lemma_le_bytes_words_roundtrip(ws: Seq<u32>)
    ensures
        le_bytes_words(words_le_bytes(ws)) == ws,
    decreases ws.len(),
{
    lemma_auto_spec_u32_to_from_le_bytes();
    lemma_words_le_bytes_len(ws);
    if ws.len() == 0 {
        assert(le_bytes_words(words_le_bytes(ws)) =~= ws);
    } else {
        let prefix = ws.drop_last();
        let bs = words_le_bytes(ws);
        let bsp = words_le_bytes(prefix);
        lemma_le_bytes_words_roundtrip(prefix);
        lemma_words_le_bytes_len(prefix);
        assert forall|i: int| 0 <= i < ws.len() implies le_bytes_words(bs)[i] == ws[i] by {
            if i < ws.len() - 1 {
                assert(bs.subrange(4 * i, 4 * i + 4) =~= bsp.subrange(4 * i, 4 * i + 4));
                assert(le_bytes_words(bsp)[i] == prefix[i]);
            } else {
                assert(bs.subrange(4 * i, 4 * i + 4) =~= spec_u32_to_le_bytes(ws.last()));
            }
        }
        assert(le_bytes_words(words_le_bytes(ws)) =~= ws);
    }
}

/// Builds the little-endian buffer image of a word sequence.
pub fn words_to_le_bytes(ws: &Vec<u32>) -> (r: Vec<u8>)
    ensures
        r@ == words_le_bytes(ws@),
        r@.len() == 4 * ws@.len(),
{
    let mut r: Vec<u8> = Vec::new();
    let mut i: usize = 0;
    while i < ws.len()
        invariant
            i <= ws@.len(),
            r@ == words_le_bytes(ws@.take(i as int)),
        decreases ws@.len() - i,
    {
        let mut word = u32_to_le_bytes(ws[i]);
        r.append(&mut word);
        proof {
            assert(ws@.take(i + 1).drop_last() =~= ws@.take(i as int));
            assert(ws@.take(i + 1).last() == ws@[i as int]);
        }
        i = i + 1;
    }
    proof {
        assert(ws@.take(ws@.len() as int) =~= ws@);
        lemma_words_le_bytes_len(ws@);
    }
    r
}

/// Reads back the word sequence held by a little-endian buffer image.
pub fn le_bytes_to_words(bs: &[u8]) -> (r: Vec<u32>)
    requires
        bs@.len() % 4 == 0,
    ensures
        r@ == le_bytes_words(bs@),
{
    let len = bs.len();
    let n = len / 4;
    let mut r: Vec<u32> = Vec::new();
    let mut i: usize = 0;
    while i < n
        invariant
            i <= n,
            len == bs@.len(),
            n == bs@.len() / 4,
            bs@.len() % 4 == 0,
            r@.len() == i,
            forall|j: int| 0 <= j < i ==> r@[j] == le_bytes_words(bs@)[j],
        decreases n - i,
    {
        assert(4 * (i as int) + 4 <= bs@.len());
        let chunk = slice_subrange(bs, 4 * i, 4 * i + 4);
        let w = u32_from_le_bytes(chunk);
        r.push(w);
        i = i + 1;
    }
    proof {
        assert(r@ =~= le_bytes_words(bs@));
    }
    r
}

} // verus!
