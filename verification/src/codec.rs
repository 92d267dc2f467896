//! The on-disk shape of a file-backed block: a packed little-endian array of
//! fixed-size elements, no header and no length field — the byte count itself
//! encodes the capacity. Encoding and decoding invert each other, which is
//! what makes a synced block reopen to the same elements.

use vstd::bytes::{
    lemma_auto_spec_u64_to_from_le_bytes, spec_u64_from_le_bytes, spec_u64_to_le_bytes,
    u64_from_le_bytes, u64_to_le_bytes,
};
use vstd::prelude::*;

verus! {

/// The packed little-endian byte image of a run of elements.
pub open spec fn le_bytes_of(s: Seq<u64>) -> Seq<u8>
    decreases s.len(),
{
    if s.len() == 0 {
        Seq::<u8>::empty()
    } else {
        spec_u64_to_le_bytes(s[0]) + le_bytes_of(s.skip(1))
    }
}

/// The elements a packed byte image holds; trailing bytes that do not fill a
/// whole element are ignored.
pub open spec fn u64s_of(b: Seq<u8>) -> Seq<u64> {
    Seq::new(b.len() as nat / 8, |i: int| spec_u64_from_le_bytes(b.subrange(8 * i, 8 * i + 8)))
}

proof fn lemma_le_bytes_of_len(s: Seq<u64>)
    ensures
        le_bytes_of(s).len() == 8 * s.len(),
    decreases s.len(),
{
    lemma_auto_spec_u64_to_from_le_bytes();
    if s.len() > 0 {
        lemma_le_bytes_of_len(s.skip(1));
    }
}

proof fn lemma_le_bytes_of_snoc(s: Seq<u64>, x: u64)
    ensures
        le_bytes_of(s.push(x)) == le_bytes_of(s) + spec_u64_to_le_bytes(x),
    decreases s.len(),
{
    lemma_auto_spec_u64_to_from_le_bytes();
    let sp = s.push(x);
    if s.len() == 0 {
        assert(sp[0] == x);
        assert(sp.skip(1) =~= Seq::<u64>::empty());
        assert(le_bytes_of(Seq::<u64>::empty()) == Seq::<u8>::empty());
        assert(le_bytes_of(sp) == spec_u64_to_le_bytes(x) + Seq::<u8>::empty());
        assert(le_bytes_of(s) == Seq::<u8>::empty());
        assert(spec_u64_to_le_bytes(x) + Seq::<u8>::empty() =~= Seq::<u8>::empty()
            + spec_u64_to_le_bytes(x));
    } else {
        assert(sp[0] == s[0]);
        assert(sp.skip(1) =~= s.skip(1).push(x));
        lemma_le_bytes_of_snoc(s.skip(1), x);
        assert(le_bytes_of(sp) == spec_u64_to_le_bytes(s[0]) + (le_bytes_of(s.skip(1))
            + spec_u64_to_le_bytes(x)));
        assert(le_bytes_of(s) == spec_u64_to_le_bytes(s[0]) + le_bytes_of(s.skip(1)));
        assert(spec_u64_to_le_bytes(s[0]) + (le_bytes_of(s.skip(1)) + spec_u64_to_le_bytes(x))
            =~= (spec_u64_to_le_bytes(s[0]) + le_bytes_of(s.skip(1))) + spec_u64_to_le_bytes(x));
    }
}

proof fn lemma_le_bytes_of_chunk(s: Seq<u64>, i: int)
    requires
        0 <= i < s.len(),
    ensures
        le_bytes_of(s).subrange(8 * i, 8 * i + 8) == spec_u64_to_le_bytes(s[i]),
    decreases i,
{
    lemma_auto_spec_u64_to_from_le_bytes();
    lemma_le_bytes_of_len(s);
    lemma_le_bytes_of_len(s.skip(1));
    if i == 0 {
        assert(le_bytes_of(s).subrange(0, 8) =~= spec_u64_to_le_bytes(s[0]));
    } else {
        lemma_le_bytes_of_chunk(s.skip(1), i - 1);
        assert(le_bytes_of(s).subrange(8 * i, 8 * i + 8) =~= le_bytes_of(s.skip(1)).subrange(
            8 * (i - 1),
            8 * (i - 1) + 8,
        ));
    }
}

/// Decoding a block's byte image yields the block's elements back exactly:
/// what a sync writes, a reopen reads.
pub proof fn lemma_codec_round_trip(s: Seq<u64>)
    ensures
        u64s_of(le_bytes_of(s)) == s,
{
    lemma_auto_spec_u64_to_from_le_bytes();
    lemma_le_bytes_of_len(s);
    assert forall|i: int| 0 <= i < s.len() implies u64s_of(le_bytes_of(s))[i] == s[i] by {
        lemma_le_bytes_of_chunk(s, i);
    }
    assert(u64s_of(le_bytes_of(s)) =~= s);
}

/// Serializes a run of elements to its packed byte image.
pub fn encode_u64s(src: &[u64]) -> (r: Vec<u8>)
    ensures
        r@ == le_bytes_of(src@),
{
    let n = src.len();
    let mut r: Vec<u8> = Vec::new();
    let mut i: usize = 0;
    while i < n
        invariant
            i <= n,
            n == src@.len(),
            r@ == le_bytes_of(src@.subrange(0, i as int)),
        decreases n - i,
    {
        let mut chunk = u64_to_le_bytes(src[i]);
        r.append(&mut chunk);
        proof {
            lemma_le_bytes_of_snoc(src@.subrange(0, i as int), src@[i as int]);
            assert(src@.subrange(0, i + 1) =~= src@.subrange(0, i as int).push(src@[i as int]));
        }
        i += 1;
    }
    proof {
        assert(src@.subrange(0, n as int) =~= src@);
    }
    r
}

/// Reads a run of elements back from its packed byte image, ignoring any
/// trailing bytes that do not fill a whole element.
pub fn decode_u64s(bytes: &[u8]) -> (r: Vec<u64>)
    ensures
        r@ == u64s_of(bytes@),
{
    let total = bytes.len();
    let count = total / 8;
    assert(8 * count <= total && count == bytes@.len() as nat / 8);
    let mut r: Vec<u64> = Vec::new();
    let mut i: usize = 0;
    while i < count
        invariant
            i <= count,
            total == bytes@.len(),
            count == bytes@.len() as nat / 8,
            8 * count <= total,
            r@ == u64s_of(bytes@).subrange(0, i as int),
        decreases count - i,
    {
        let chunk = vstd::slice::slice_subrange(bytes, 8 * i, 8 * i + 8);
        let x = u64_from_le_bytes(chunk);
        r.push(x);
        proof {
            assert(u64s_of(bytes@).subrange(0, i + 1) =~= u64s_of(bytes@).subrange(
                0,
                i as int,
            ).push(u64s_of(bytes@)[i as int]));
        }
        i += 1;
    }
    proof {
        assert(u64s_of(bytes@).subrange(0, count as int) =~= u64s_of(bytes@));
    }
    r
}

} // verus!
