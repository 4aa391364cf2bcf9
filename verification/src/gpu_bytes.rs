//! Little-endian serialization of 32-bit words into GPU-visible byte
//! buffers.
//!
//! Uniform and vertex buffers are modelled as byte vectors; every record the
//! engine uploads (matrices, vertices, light records) is a sequence of
//! 32-bit words written little-endian. Serialization and its inverse are
//! fully verified.

use vstd::prelude::*;
use vstd::bytes::{
    lemma_auto_spec_u32_to_from_le_bytes, spec_u32_from_le_bytes, spec_u32_to_le_bytes,
    u32_to_le_bytes,
};
use crate::math::Mat4Bits;

verus! {

/// The bytes of a sequence of 32-bit words, each written little-endian.
pub open spec fn spec_words_le_bytes(ws: Seq<u32>) -> Seq<u8>
    decreases ws.len(),
{
    if ws.len() == 0 {
        Seq::empty()
    } else {
        spec_u32_to_le_bytes(ws[0]) + spec_words_le_bytes(ws.drop_first())
    }
}

/// The words read back from a byte sequence, four bytes at a time,
/// little-endian.
pub open spec fn spec_words_from_le_bytes(bs: Seq<u8>) -> Seq<u32> {
    Seq::new(bs.len() / 4, |i: int| spec_u32_from_le_bytes(bs.subrange(4 * i, 4 * i + 4)))
}

/// Serializing `n` words yields `4 * n` bytes.
pub proof fn lemma_words_le_bytes_len(ws: Seq<u32>)
    ensures
        spec_words_le_bytes(ws).len() == 4 * ws.len(),
    decreases ws.len(),
{
    lemma_auto_spec_u32_to_from_le_bytes();
    if ws.len() > 0 {
        lemma_words_le_bytes_len(ws.drop_first());
    }
}

/// Appending a word appends its four bytes.
pub proof fn lemma_words_le_bytes_push(ws: Seq<u32>, x: u32)
    ensures
        spec_words_le_bytes(ws.push(x)) == spec_words_le_bytes(ws) + spec_u32_to_le_bytes(x),
    decreases ws.len(),
{
    lemma_auto_spec_u32_to_from_le_bytes();
    let p = ws.push(x);
    if ws.len() == 0 {
        assert(p[0] == x);
        assert(p.drop_first() =~= Seq::<u32>::empty());
        assert(spec_words_le_bytes(Seq::<u32>::empty()) == Seq::<u8>::empty());
        assert(spec_words_le_bytes(p) == spec_u32_to_le_bytes(p[0]) + spec_words_le_bytes(
            p.drop_first(),
        ));
        assert(spec_words_le_bytes(p) =~= spec_words_le_bytes(ws) + spec_u32_to_le_bytes(x));
    } else {
        lemma_words_le_bytes_push(ws.drop_first(), x);
        assert(p.drop_first() =~= ws.drop_first().push(x));
        assert(p[0] == ws[0]);
        assert(spec_words_le_bytes(p) == spec_u32_to_le_bytes(p[0]) + spec_words_le_bytes(
            p.drop_first(),
        ));
        assert(spec_words_le_bytes(p) =~= spec_words_le_bytes(ws) + spec_u32_to_le_bytes(x));
    }
}

/// Reading back what was serialized yields the original words.
pub proof fn lemma_words_le_bytes_roundtrip(ws: Seq<u32>)
    ensures
        spec_words_from_le_bytes(spec_words_le_bytes(ws)) == ws,
    decreases ws.len(),
{
    lemma_auto_spec_u32_to_from_le_bytes();
    lemma_words_le_bytes_len(ws);
    if ws.len() == 0 {
        assert(spec_words_from_le_bytes(spec_words_le_bytes(ws)) =~= ws);
    } else {
        lemma_words_le_bytes_roundtrip(ws.drop_first());
        lemma_words_le_bytes_len(ws.drop_first());
        let bs = spec_words_le_bytes(ws);
        let head = spec_u32_to_le_bytes(ws[0]);
        let tail = spec_words_le_bytes(ws.drop_first());
        assert(bs =~= head + tail);
        assert forall|i: int| 0 <= i < ws.len() implies spec_words_from_le_bytes(bs)[i] == ws[i] by {
            if i == 0 {
                assert(bs.subrange(0, 4) =~= head);
            } else {
                assert(bs.subrange(4 * i, 4 * i + 4) =~= tail.subrange(
                    4 * (i - 1),
                    4 * (i - 1) + 4,
                ));
                assert(spec_words_from_le_bytes(tail)[i - 1] == ws.drop_first()[i - 1]);
            }
        }
        assert(spec_words_from_le_bytes(spec_words_le_bytes(ws)) =~= ws);
    }
}

/// Appends the four little-endian bytes of `x` to `out`.
pub fn push_u32_le(out: &mut Vec<u8>, x: u32)
    ensures
        final(out)@ == old(out)@ + spec_u32_to_le_bytes(x),
{
    let mut b = u32_to_le_bytes(x);
    out.append(&mut b);
}

/// Appends the little-endian bytes of every word of `ws`, in order.
pub fn push_words_le(out: &mut Vec<u8>, ws: &Vec<u32>)
    ensures
        final(out)@ == old(out)@ + spec_words_le_bytes(ws@),
{
    let mut i: usize = 0;
    while i < ws.len()
        invariant
            0 <= i <= ws@.len(),
            out@ == old(out)@ + spec_words_le_bytes(ws@.take(i as int)),
        decreases ws@.len() - i,
    {
        proof {
            lemma_words_le_bytes_push(ws@.take(i as int), ws@[i as int]);
            assert(ws@.take(i as int).push(ws@[i as int]) =~= ws@.take(i + 1));
        }
        push_u32_le(out, ws[i]);
        i += 1;
    }
    proof {
        assert(ws@.take(ws@.len() as int) =~= ws@);
    }
}

/// The 64 bytes of a column-major matrix, as the GPU reads them.
pub fn mat4_to_bytes(m: &Mat4Bits) -> (r: Vec<u8>)
    ensures
        r@ == spec_words_le_bytes(m@),
        r@.len() == 64,
{
    let mut out: Vec<u8> = Vec::new();
    let mut i: usize = 0;
    while i < 16
        invariant
            0 <= i <= 16,
            out@ == spec_words_le_bytes(m@.take(i as int)),
        decreases 16 - i,
    {
        proof {
            lemma_words_le_bytes_push(m@.take(i as int), m@[i as int]);
            assert(m@.take(i as int).push(m@[i as int]) =~= m@.take(i + 1));
        }
        push_u32_le(&mut out, m.m[i]);
        i += 1;
    }
    proof {
        assert(m@.take(16) =~= m@);
        lemma_words_le_bytes_len(m@);
    }
    out
}

} // verus!
