//! Draw-call batching: an ordered instance sequence is split into
//! contiguous chunks of at most `MAX_INSTANCES` records, and each chunk
//! becomes one instanced draw over the unit quad.
//!
//! Chunks are planned strictly in input order and within a chunk the
//! instances keep their input order; blending is order-dependent, so this
//! painter's-algorithm ordering is part of the contract, not an accident.

use vstd::prelude::*;

verus! {

use vstd::arithmetic::div_mod::lemma_basic_div;
use vstd::arithmetic::div_mod::lemma_fundamental_div_mod;
use vstd::arithmetic::div_mod::lemma_fundamental_div_mod_converse;
use vstd::arithmetic::div_mod::lemma_mod_division_less_than_divisor;
use vstd::math::min;
use vstd::slice::slice_index_get;
use crate::codec::lemma_words_le_bytes_len;
use crate::codec::words_le_bytes;
use crate::quad::MAX_INSTANCES;
use crate::quad::QUAD_BYTES;
use crate::quad::Quad;
use crate::quad::Rectangle;
use crate::quad::quad_le_bytes;
use crate::quad::quad_to_bytes;
use crate::uniforms::Transformation;
use crate::uniforms::UNIFORM_BYTES;
use crate::uniforms::Uniforms;
use crate::uniforms::uniform_words;
use crate::uniforms::uniforms_to_bytes;

/// Number of chunks that n instances take at chunk capacity c: the least k
/// with k * c >= n, i.e. n / c rounded up.
pub open spec fn chunk_count(n: int, c: int) -> int
    recommends
        c >= 1,
        n >= 0,
{
    (n + c - 1) / c
}

/// Length of chunk i: every chunk holds c instances except the last, which
/// holds what remains.
pub open spec fn chunk_len(n: int, c: int, i: int) -> int
    recommends
        c >= 1,
        0 <= i < chunk_count(n, c),
{
    min(c, n - i * c)
}

/// `chunk_count` is the rounded-up quotient: it covers all n instances, and
/// one chunk fewer would not.
pub proof fn lemma_chunk_count_bounds(n: int, c: int)
    requires
        c >= 1,
        n >= 0,
    ensures
        chunk_count(n, c) >= 0,
        n == 0 ==> chunk_count(n, c) == 0,
        n >= 1 ==> chunk_count(n, c) >= 1,
        chunk_count(n, c) * c >= n,
        n >= 1 ==> (chunk_count(n, c) - 1) * c < n,
{
    let k = chunk_count(n, c);
    let x = n + c - 1;
    lemma_fundamental_div_mod(x, c);
    lemma_mod_division_less_than_divisor(x, c);
    let r = x % c;
    assert(x == c * k + r);
    assert(c * k == k * c) by (nonlinear_arith);
    assert(k * c >= n);
    if n == 0 {
        lemma_basic_div(c - 1, c);
    } else {
        assert(k >= 1) by (nonlinear_arith)
            requires
                k * c >= n,
                n >= 1,
                c >= 1,
        ;
        assert((k - 1) * c == k * c - c) by (nonlinear_arith);
        assert(k * c <= x);
        assert((k - 1) * c < n);
    }
    assert(k >= 0) by (nonlinear_arith)
        requires
            k * c >= n,
            n >= 0,
            c >= 1,
    ;
}

/// The chunk sizes behind `chunk_len`: every chunk but the last holds
/// exactly c instances; the last holds n % c, or c when c divides n; every
/// chunk holds between 1 and c; consecutive chunks tile [0, n) exactly.
pub proof fn lemma_chunk_sizes(n: int, c: int)
    requires
        c >= 1,
        n >= 0,
    ensures
        forall|i: int| 0 <= i < chunk_count(n, c) - 1 ==> chunk_len(n, c, i) == c,
        n >= 1 ==> chunk_len(n, c, chunk_count(n, c) - 1) == (if n % c == 0 {
            c
        } else {
            n % c
        }),
        forall|i: int|
            0 <= i < chunk_count(n, c) ==> 1 <= chunk_len(n, c, i) && chunk_len(n, c, i) <= c,
        forall|i: int|
            0 <= i < chunk_count(n, c) - 1 ==> i * c + chunk_len(n, c, i) == (i + 1) * c,
        n >= 1 ==> (chunk_count(n, c) - 1) * c + chunk_len(n, c, chunk_count(n, c) - 1) == n,
{
    let k = chunk_count(n, c);
    lemma_chunk_count_bounds(n, c);
    assert forall|i: int| 0 <= i < k - 1 implies chunk_len(n, c, i) == c by {
        assert((i + 1) * c <= (k - 1) * c) by (nonlinear_arith)
            requires
                i + 1 <= k - 1,
                c >= 1,
        ;
        assert((i + 1) * c == i * c + c) by (nonlinear_arith);
    }
    assert forall|i: int| 0 <= i < k implies 1 <= chunk_len(n, c, i) && chunk_len(n, c, i) <= c by {
        assert(i * c <= (k - 1) * c) by (nonlinear_arith)
            requires
                i <= k - 1,
                c >= 1,
        ;
    }
    assert forall|i: int| 0 <= i < k - 1 implies i * c + chunk_len(n, c, i) == (i + 1) * c by {
        assert((i + 1) * c <= (k - 1) * c) by (nonlinear_arith)
            requires
                i + 1 <= k - 1,
                c >= 1,
        ;
        assert((i + 1) * c == i * c + c) by (nonlinear_arith);
    }
    if n >= 1 {
        let q = n / c;
        let r = n % c;
        lemma_fundamental_div_mod(n, c);
        lemma_mod_division_less_than_divisor(n, c);
        assert(n == c * q + r);
        if r == 0 {
            assert(n + c - 1 == q * c + (c - 1)) by (nonlinear_arith)
                requires
                    n == c * q,
            ;
            lemma_fundamental_div_mod_converse(n + c - 1, c, q, c - 1);
            assert(k == q);
            assert(n - (q - 1) * c == c) by (nonlinear_arith)
                requires
                    n == c * q,
            ;
        } else {
            assert(n + c - 1 == (q + 1) * c + (r - 1)) by (nonlinear_arith)
                requires
                    n == c * q + r,
            ;
            lemma_fundamental_div_mod_converse(n + c - 1, c, q + 1, r - 1);
            assert(k == q + 1);
            assert(n - q * c == r) by (nonlinear_arith)
                requires
                    n == c * q + r,
            ;
        }
    }
}

/// Splits n instances into chunks of at most `capacity`, returning each
/// chunk's first index and length, in input order.
pub fn plan_chunks(total: usize, capacity: usize) -> (r: Vec<(usize, usize)>)
    requires
        capacity >= 1,
    ensures
        r@.len() == chunk_count(total as int, capacity as int),
        forall|i: int|
            0 <= i < r@.len() ==> (#[trigger] r@[i]).0 == i * capacity as int && r@[i].1
                == chunk_len(total as int, capacity as int, i),
{
    let n = total;
    let c = capacity;
    let ghost ni = n as int;
    let ghost ci = c as int;
    let mut r: Vec<(usize, usize)> = Vec::new();
    let mut start: usize = 0;
    proof {
        assert(r@.len() * ci == 0) by (nonlinear_arith)
            requires
                r@.len() == 0,
        ;
    }
    while start < n
        invariant
            c >= 1,
            ni == n as int,
            ci == c as int,
            start <= n,
            start as int == min(r@.len() * ci, ni),
            start == 0 ==> r@.len() == 0,
            forall|j: int|
                0 <= j < r@.len() ==> (#[trigger] r@[j]).0 == j * ci && r@[j].0 < ni && r@[j].1
                    == chunk_len(ni, ci, j),
        decreases n - start,
    {
        let ghost k = r@.len() as int;
        proof {
            assert(start as int == k * ci);
        }
        let remaining = n - start;
        let len = if remaining < c {
            remaining
        } else {
            c
        };
        r.push((start, len));
        proof {
            assert(r@[k] == (start, len));
            assert(r@.len() * ci == k * ci + ci) by (nonlinear_arith)
                requires
                    r@.len() == k + 1,
            ;
        }
        start = start + len;
        proof {
            assert(start as int == min(r@.len() * ci, ni));
        }
    }
    proof {
        let k = r@.len() as int;
        lemma_chunk_count_bounds(ni, ci);
        if n == 0 {
            assert(k == 0);
        } else {
            assert(start as int == ni);
            assert(k * ci >= ni);
            assert(k >= 1) by (nonlinear_arith)
                requires
                    k * ci >= ni,
                    ni >= 1,
                    ci >= 1,
            ;
            assert(r@[k - 1].0 == (k - 1) * ci && r@[k - 1].0 < ni);
            let x = ni + ci - 1;
            assert(k * ci == (k - 1) * ci + ci) by (nonlinear_arith);
            assert(k * ci <= x);
            lemma_fundamental_div_mod_converse(x, ci, k, x - k * ci);
            assert(k == chunk_count(ni, ci));
        }
    }
    r
}

/// The instance-buffer image of a run of quad records: each record's
/// bytes, tightly packed, in input order.
pub open spec fn quads_le_bytes(qs: Seq<Quad>) -> Seq<u8>
    decreases qs.len(),
{
    if qs.len() == 0 {
        Seq::empty()
    } else {
        quads_le_bytes(qs.drop_last()) + quad_le_bytes(qs.last())
    }
}

/// A run of n records takes exactly n record-sized slots.
pub proof fn lemma_quads_le_bytes_len(qs: Seq<Quad>)
    ensures
        quads_le_bytes(qs).len() == QUAD_BYTES * qs.len(),
    decreases qs.len(),
{
    if qs.len() > 0 {
        lemma_quads_le_bytes_len(qs.drop_last());
        lemma_words_le_bytes_len(qs.last()@);
    }
}

/// Writes the instance-buffer image of `instances[from..to]`.
pub fn quads_to_bytes(instances: &[Quad], from: usize, to: usize) -> (r: Vec<u8>)
    requires
        from <= to <= instances@.len(),
    ensures
        r@ == quads_le_bytes(instances@.subrange(from as int, to as int)),
        r@.len() == QUAD_BYTES * (to - from),
{
    let mut r: Vec<u8> = Vec::new();
    let mut j = from;
    while j < to
        invariant
            from <= j <= to <= instances@.len(),
            r@ == quads_le_bytes(instances@.subrange(from as int, j as int)),
        decreases to - j,
    {
        let q = slice_index_get(instances, j);
        let mut bytes = quad_to_bytes(q);
        r.append(&mut bytes);
        proof {
            assert(instances@.subrange(from as int, j + 1).drop_last() =~= instances@.subrange(
                from as int,
                j as int,
            ));
            assert(instances@.subrange(from as int, j + 1).last() == instances@[j as int]);
        }
        j = j + 1;
    }
    proof {
        lemma_quads_le_bytes_len(instances@.subrange(from as int, to as int));
    }
    r
}

/// One chunk of a draw call: the contiguous slice of instances it covers
/// and the bytes its render pass uploads into the instance buffer.
pub struct DrawBatch {
    /// Index of the chunk's first instance in the submitted sequence.
    pub first_instance: usize,
    /// Number of instances the chunk draws.
    pub instance_count: usize,
    /// The chunk's instance-buffer image.
    pub instance_bytes: Vec<u8>,
}

/// Everything one draw call uploads and draws, computed from plain values:
/// the uniform block's bytes and one batch per chunk, in input order.
pub struct DrawPlan {
    /// The uniform block's buffer image, written once per draw call.
    pub uniform_bytes: Vec<u8>,
    /// The chunks, in input order; each becomes one render pass issuing one
    /// instanced indexed draw.
    pub batches: Vec<DrawBatch>,
}

/// Plans one draw call: the uniform block carries the caller's transform
/// and scale, and the instance sequence is split into chunks of at most
/// `MAX_INSTANCES`, each covering a disjoint, order-preserving contiguous
/// slice of the input. An empty instance sequence plans no batch at all.
///
/// `bounds` names the target sub-region the call is scoped to; it is
/// accepted as part of the draw contract but not yet applied as a scissor.
#[allow(unused_variables)]
pub fn plan_draw(
    instances: &[Quad],
    transformation: Transformation,
    scale: u32,
    bounds: Rectangle<u32>,
) -> (p: DrawPlan)
    ensures
        p.uniform_bytes@ == words_le_bytes(
            transformation.cells@ + seq![scale] + seq![0u32, 0u32, 0u32],
        ),
        p.uniform_bytes@.len() == UNIFORM_BYTES,
        p.batches@.len() == chunk_count(instances@.len() as int, MAX_INSTANCES as int),
        forall|i: int|
            0 <= i < p.batches@.len() ==> {
                let b = #[trigger] p.batches@[i];
                b.first_instance == i * MAX_INSTANCES && b.instance_count == chunk_len(
                    instances@.len() as int,
                    MAX_INSTANCES as int,
                    i,
                ) && 1 <= b.instance_count <= MAX_INSTANCES && b.instance_bytes@ == quads_le_bytes(
                    instances@.subrange(
                        b.first_instance as int,
                        b.first_instance + b.instance_count,
                    ),
                ) && b.instance_bytes@.len() == QUAD_BYTES * b.instance_count
            },
{
    let u = Uniforms::new(transformation, scale);
    let uniform_bytes = uniforms_to_bytes(&u);
    proof {
        assert(uniform_words(u) =~= transformation.cells@ + seq![scale] + seq![0u32, 0u32, 0u32]);
    }
    let n = instances.len();
    let ghost ni = n as int;
    let ghost ci = MAX_INSTANCES as int;
    let chunks = plan_chunks(n, MAX_INSTANCES);
    proof {
        lemma_chunk_sizes(ni, ci);
    }
    let mut batches: Vec<DrawBatch> = Vec::new();
    let mut i: usize = 0;
    while i < chunks.len()
        invariant
            ni == instances@.len(),
            ni <= usize::MAX,
            ci == MAX_INSTANCES as int,
            i <= chunks@.len(),
            chunks@.len() == chunk_count(ni, ci),
            forall|j: int|
                0 <= j < chunks@.len() ==> (#[trigger] chunks@[j]).0 == j * ci && chunks@[j].1
                    == chunk_len(ni, ci, j),
            forall|j: int|
                0 <= j < chunks@.len() ==> 1 <= (#[trigger] chunks@[j]).1 && chunks@[j].1 <= ci,
            batches@.len() == i,
            forall|j: int|
                0 <= j < i ==> {
                    let b = #[trigger] batches@[j];
                    b.first_instance == j * ci && b.instance_count == chunk_len(ni, ci, j) && 1
                        <= b.instance_count <= ci && b.instance_bytes@ == quads_le_bytes(
                        instances@.subrange(
                            b.first_instance as int,
                            b.first_instance + b.instance_count,
                        ),
                    ) && b.instance_bytes@.len() == QUAD_BYTES * b.instance_count
                },
        decreases chunks@.len() - i,
    {
        let (first, count) = chunks[i];
        proof {
            assert(first + count <= ni);
        }
        let bytes = quads_to_bytes(instances, first, first + count);
        batches.push(DrawBatch { first_instance: first, instance_count: count, instance_bytes: bytes });
        i = i + 1;
    }
    DrawPlan { uniform_bytes, batches }
}

} // verus!
