//! Byte images of the CPU-side mesh arrays.
//!
//! A vertex is a run of 32-bit words and an index list is a run of 16-bit
//! values; both are uploaded into GPU buffers as their little-endian byte
//! image, in element order and with no padding.  This module defines that
//! image, exposes executable encoders and decoders, and proves that decoding
//! an image gives back exactly the words it was made from.

use vstd::prelude::*;
use vstd::bytes::lemma_auto_spec_u16_to_from_le_bytes;
use vstd::bytes::lemma_auto_spec_u32_to_from_le_bytes;
use vstd::bytes::spec_u16_from_le_bytes;
use vstd::bytes::spec_u16_to_le_bytes;
use vstd::bytes::spec_u32_from_le_bytes;
use vstd::bytes::spec_u32_to_le_bytes;
use vstd::bytes::u16_from_le_bytes;
use vstd::bytes::u16_to_le_bytes;
use vstd::bytes::u32_from_le_bytes;
use vstd::bytes::u32_to_le_bytes;
use vstd::slice::slice_subrange;

verus! {

/// The little-endian byte image of a sequence of 32-bit words.
pub open spec fn le_bytes_of_u32s(ws: Seq<u32>) -> Seq<u8>
    decreases ws.len(),
{
    if ws.len() == 0 {
        Seq::empty()
    } else {
        spec_u32_to_le_bytes(ws[0]) + le_bytes_of_u32s(ws.skip(1))
    }
}

/// The words read back from a little-endian byte image, four bytes at a time.
pub open spec fn u32s_of_le_bytes(bs: Seq<u8>) -> Seq<u32>
    decreases bs.len(),
{
    if bs.len() < 4 {
        Seq::empty()
    } else {
        seq![spec_u32_from_le_bytes(bs.take(4))] + u32s_of_le_bytes(bs.skip(4))
    }
}

/// The little-endian byte image of a sequence of 16-bit values.
pub open spec fn le_bytes_of_u16s(vs: Seq<u16>) -> Seq<u8>
    decreases vs.len(),
{
    if vs.len() == 0 {
        Seq::empty()
    } else {
        spec_u16_to_le_bytes(vs[0]) + le_bytes_of_u16s(vs.skip(1))
    }
}

/// The 16-bit values read back from a little-endian byte image, two bytes at a time.
pub open spec fn u16s_of_le_bytes(bs: Seq<u8>) -> Seq<u16>
    decreases bs.len(),
{
    if bs.len() < 2 {
        Seq::empty()
    } else {
        seq![spec_u16_from_le_bytes(bs.take(2))] + u16s_of_le_bytes(bs.skip(2))
    }
}

pub proof fn lemma_le_bytes_of_u32s_len(ws: Seq<u32>)
    ensures
        le_bytes_of_u32s(ws).len() == 4 * ws.len(),
    decreases ws.len(),
{
    lemma_auto_spec_u32_to_from_le_bytes();
    if ws.len() > 0 {
        lemma_le_bytes_of_u32s_len(ws.skip(1));
    }
}

pub proof fn lemma_le_bytes_of_u16s_len(vs: Seq<u16>)
    ensures
        le_bytes_of_u16s(vs).len() == 2 * vs.len(),
    decreases vs.len(),
{
    lemma_auto_spec_u16_to_from_le_bytes();
    if vs.len() > 0 {
        lemma_le_bytes_of_u16s_len(vs.skip(1));
    }
}

pub proof fn lemma_le_bytes_of_u32s_push(ws: Seq<u32>, w: u32)
    ensures
        le_bytes_of_u32s(ws.push(w)) == le_bytes_of_u32s(ws) + spec_u32_to_le_bytes(w),
    decreases ws.len(),
{
    if ws.len() == 0 {
        assert(ws.push(w)[0] == w);
        assert(ws.push(w).skip(1) =~= Seq::<u32>::empty());
        assert(le_bytes_of_u32s(ws.push(w))
            == spec_u32_to_le_bytes(w) + le_bytes_of_u32s(Seq::<u32>::empty()));
        assert(le_bytes_of_u32s(ws.push(w)) =~= le_bytes_of_u32s(ws) + spec_u32_to_le_bytes(w));
    } else {
        assert(ws.push(w)[0] == ws[0]);
        assert(ws.push(w).skip(1) =~= ws.skip(1).push(w));
        lemma_le_bytes_of_u32s_push(ws.skip(1), w);
        assert(le_bytes_of_u32s(ws.push(w))
            == spec_u32_to_le_bytes(ws[0]) + (le_bytes_of_u32s(ws.skip(1)) + spec_u32_to_le_bytes(w)));
        assert(le_bytes_of_u32s(ws.push(w)) =~= le_bytes_of_u32s(ws) + spec_u32_to_le_bytes(w));
    }
}

pub proof fn lemma_le_bytes_of_u16s_push(vs: Seq<u16>, v: u16)
    ensures
        le_bytes_of_u16s(vs.push(v)) == le_bytes_of_u16s(vs) + spec_u16_to_le_bytes(v),
    decreases vs.len(),
{
    if vs.len() == 0 {
        assert(vs.push(v)[0] == v);
        assert(vs.push(v).skip(1) =~= Seq::<u16>::empty());
        assert(le_bytes_of_u16s(vs.push(v))
            == spec_u16_to_le_bytes(v) + le_bytes_of_u16s(Seq::<u16>::empty()));
        assert(le_bytes_of_u16s(vs.push(v)) =~= le_bytes_of_u16s(vs) + spec_u16_to_le_bytes(v));
    } else {
        assert(vs.push(v)[0] == vs[0]);
        assert(vs.push(v).skip(1) =~= vs.skip(1).push(v));
        lemma_le_bytes_of_u16s_push(vs.skip(1), v);
        assert(le_bytes_of_u16s(vs.push(v))
            == spec_u16_to_le_bytes(vs[0]) + (le_bytes_of_u16s(vs.skip(1)) + spec_u16_to_le_bytes(v)));
        assert(le_bytes_of_u16s(vs.push(v)) =~= le_bytes_of_u16s(vs) + spec_u16_to_le_bytes(v));
    }
}

/// Round trip: the byte image of a word sequence decodes to that sequence.
pub proof fn lemma_u32s_round_trip(ws: Seq<u32>)
    ensures
        u32s_of_le_bytes(le_bytes_of_u32s(ws)) == ws,
    decreases ws.len(),
{
    lemma_auto_spec_u32_to_from_le_bytes();
    if ws.len() == 0 {
        assert(u32s_of_le_bytes(le_bytes_of_u32s(ws)) =~= ws);
    } else {
        let head = spec_u32_to_le_bytes(ws[0]);
        let rest = le_bytes_of_u32s(ws.skip(1));
        lemma_le_bytes_of_u32s_len(ws.skip(1));
        assert((head + rest).take(4) =~= head);
        assert((head + rest).skip(4) =~= rest);
        lemma_u32s_round_trip(ws.skip(1));
        assert(u32s_of_le_bytes(le_bytes_of_u32s(ws)) =~= ws);
    }
}

/// Round trip: the byte image of a 16-bit sequence decodes to that sequence.
pub proof fn lemma_u16s_round_trip(vs: Seq<u16>)
    ensures
        u16s_of_le_bytes(le_bytes_of_u16s(vs)) == vs,
    decreases vs.len(),
{
    lemma_auto_spec_u16_to_from_le_bytes();
    if vs.len() == 0 {
        assert(u16s_of_le_bytes(le_bytes_of_u16s(vs)) =~= vs);
    } else {
        let head = spec_u16_to_le_bytes(vs[0]);
        let rest = le_bytes_of_u16s(vs.skip(1));
        lemma_le_bytes_of_u16s_len(vs.skip(1));
        assert((head + rest).take(2) =~= head);
        assert((head + rest).skip(2) =~= rest);
        lemma_u16s_round_trip(vs.skip(1));
        assert(u16s_of_le_bytes(le_bytes_of_u16s(vs)) =~= vs);
    }
}

/// Encodes a word sequence into its little-endian byte image.
pub fn encode_u32s(ws: &Vec<u32>) -> (out: Vec<u8>)
    ensures
        out@ == le_bytes_of_u32s(ws@),
        out@.len() == 4 * ws@.len(),
{
    let mut out: Vec<u8> = Vec::new();
    let mut i: usize = 0;
    while i < ws.len()
        invariant
            i <= ws@.len(),
            out@ == le_bytes_of_u32s(ws@.take(i as int)),
        decreases ws@.len() - i,
    {
        let mut word_bytes = u32_to_le_bytes(ws[i]);
        out.append(&mut word_bytes);
        proof {
            lemma_le_bytes_of_u32s_push(ws@.take(i as int), ws@[i as int]);
            assert(ws@.take(i as int).push(ws@[i as int]) =~= ws@.take(i as int + 1));
        }
        i = i + 1;
    }
    proof {
        assert(ws@.take(ws@.len() as int) =~= ws@);
        lemma_le_bytes_of_u32s_len(ws@);
    }
    out
}

/// Encodes a 16-bit value sequence into its little-endian byte image.
pub fn encode_u16s(vs: &Vec<u16>) -> (out: Vec<u8>)
    ensures
        out@ == le_bytes_of_u16s(vs@),
        out@.len() == 2 * vs@.len(),
{
    let mut out: Vec<u8> = Vec::new();
    let mut i: usize = 0;
    while i < vs.len()
        invariant
            i <= vs@.len(),
            out@ == le_bytes_of_u16s(vs@.take(i as int)),
        decreases vs@.len() - i,
    {
        let mut value_bytes = u16_to_le_bytes(vs[i]);
        out.append(&mut value_bytes);
        proof {
            lemma_le_bytes_of_u16s_push(vs@.take(i as int), vs@[i as int]);
            assert(vs@.take(i as int).push(vs@[i as int]) =~= vs@.take(i as int + 1));
        }
        i = i + 1;
    }
    proof {
        assert(vs@.take(vs@.len() as int) =~= vs@);
        lemma_le_bytes_of_u16s_len(vs@);
    }
    out
}

/// Reads a word sequence back out of its little-endian byte image.
///
/// Returns `None` exactly when the image's length is not a multiple of four.
pub fn decode_u32s(bs: &[u8]) -> (out: Option<Vec<u32>>)
    ensures
        out is Some <==> bs@.len() % 4 == 0,
        out matches Some(ws) ==> le_bytes_of_u32s(ws@) == bs@ && ws@ == u32s_of_le_bytes(bs@),
{
    if bs.len() % 4 != 0 {
        return None;
    }
    proof {
        lemma_auto_spec_u32_to_from_le_bytes();
    }
    let mut ws: Vec<u32> = Vec::new();
    let mut i: usize = 0;
    while i < bs.len()
        invariant
            i <= bs@.len(),
            i % 4 == 0,
            bs@.len() % 4 == 0,
            le_bytes_of_u32s(ws@) == bs@.take(i as int),
            forall|x: u32| #[trigger] spec_u32_to_le_bytes(x).len() == 4
                && spec_u32_from_le_bytes(spec_u32_to_le_bytes(x)) == x,
            forall|s: Seq<u8>| s.len() == 4 ==>
                #[trigger] spec_u32_to_le_bytes(spec_u32_from_le_bytes(s)) == s,
        decreases bs@.len() - i,
    {
        let word = u32_from_le_bytes(slice_subrange(bs, i, i + 4));
        proof {
            lemma_le_bytes_of_u32s_push(ws@, word);
            assert(bs@.take(i as int) + bs@.subrange(i as int, i as int + 4)
                =~= bs@.take(i as int + 4));
        }
        ws.push(word);
        i = i + 4;
    }
    proof {
        assert(bs@.take(bs@.len() as int) =~= bs@);
        lemma_u32s_round_trip(ws@);
    }
    Some(ws)
}

/// Reads a 16-bit value sequence back out of its little-endian byte image.
///
/// Returns `None` exactly when the image's length is odd.
pub fn decode_u16s(bs: &[u8]) -> (out: Option<Vec<u16>>)
    ensures
        out is Some <==> bs@.len() % 2 == 0,
        out matches Some(vs) ==> le_bytes_of_u16s(vs@) == bs@ && vs@ == u16s_of_le_bytes(bs@),
{
    if bs.len() % 2 != 0 {
        return None;
    }
    proof {
        lemma_auto_spec_u16_to_from_le_bytes();
    }
    let mut vs: Vec<u16> = Vec::new();
    let mut i: usize = 0;
    while i < bs.len()
        invariant
            i <= bs@.len(),
            i % 2 == 0,
            bs@.len() % 2 == 0,
            le_bytes_of_u16s(vs@) == bs@.take(i as int),
            forall|x: u16| #[trigger] spec_u16_to_le_bytes(x).len() == 2
                && spec_u16_from_le_bytes(spec_u16_to_le_bytes(x)) == x,
            forall|s: Seq<u8>| s.len() == 2 ==>
                #[trigger] spec_u16_to_le_bytes(spec_u16_from_le_bytes(s)) == s,
        decreases bs@.len() - i,
    {
        let value = u16_from_le_bytes(slice_subrange(bs, i, i + 2));
        proof {
            lemma_le_bytes_of_u16s_push(vs@, value);
            assert(bs@.take(i as int) + bs@.subrange(i as int, i as int + 2)
                =~= bs@.take(i as int + 2));
        }
        vs.push(value);
        i = i + 2;
    }
    proof {
        assert(bs@.take(bs@.len() as int) =~= bs@);
        lemma_u16s_round_trip(vs@);
    }
    Some(vs)
}

} // verus!
