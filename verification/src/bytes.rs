//! Big-endian byte encodings of the fixed-width integers carried in protected headers.
use vstd::prelude::*;

verus! {

/// The two big-endian bytes of `v`.
pub open spec fn be16(v: u16) -> Seq<u8> {
    seq![(v >> 8u16) as u8, v as u8]
}

/// The four big-endian bytes of `v`.
pub open spec fn be32(v: u32) -> Seq<u8> {
    seq![(v >> 24u32) as u8, (v >> 16u32) as u8, (v >> 8u32) as u8, v as u8]
}

/// The value of two big-endian bytes.
pub open spec fn from_be16(b0: u8, b1: u8) -> u16 {
    ((b0 as u16) << 8u16) | (b1 as u16)
}

/// The value of four big-endian bytes.
pub open spec fn from_be32(b0: u8, b1: u8, b2: u8, b3: u8) -> u32 {
    ((b0 as u32) << 24u32) | ((b1 as u32) << 16u32) | ((b2 as u32) << 8u32) | (b3 as u32)
}

/// Decoding the encoding of a `u16` gives it back.
pub proof fn lemma_be16_round_trip(v: u16)
    ensures
        from_be16(be16(v)[0], be16(v)[1]) == v,
{
    let b0 = (v >> 8u16) as u8;
    let b1 = v as u8;
    assert(((((v >> 8u16) as u8) as u16) << 8u16) | ((v as u8) as u16) == v) by (bit_vector);
}

/// Decoding the encoding of a `u32` gives it back.
pub proof fn lemma_be32_round_trip(v: u32)
    ensures
        from_be32(be32(v)[0], be32(v)[1], be32(v)[2], be32(v)[3]) == v,
{
    assert(((((v >> 24u32) as u8) as u32) << 24u32) | ((((v >> 16u32) as u8) as u32) << 16u32) | ((((
    v >> 8u32) as u8) as u32) << 8u32) | ((v as u8) as u32) == v) by (bit_vector);
}

/// Appends the big-endian bytes of `v`.
pub fn push_be16(buf: &mut Vec<u8>, v: u16)
    ensures
        final(buf)@ == old(buf)@ + be16(v),
{
    buf.push((v >> 8) as u8);
    buf.push(v as u8);
    assert(final(buf)@ =~= old(buf)@ + be16(v));
}

/// Appends the big-endian bytes of `v`.
pub fn push_be32(buf: &mut Vec<u8>, v: u32)
    ensures
        final(buf)@ == old(buf)@ + be32(v),
{
    buf.push((v >> 24) as u8);
    buf.push((v >> 16) as u8);
    buf.push((v >> 8) as u8);
    buf.push(v as u8);
    assert(final(buf)@ =~= old(buf)@ + be32(v));
}

/// Encoding the value of two big-endian bytes gives the bytes back.
pub proof fn lemma_from_be16_round_trip(b0: u8, b1: u8)
    ensures
        be16(from_be16(b0, b1)) == seq![b0, b1],
{
    let v = from_be16(b0, b1);
    assert((((((b0 as u16) << 8u16) | (b1 as u16)) >> 8u16) as u8) == b0 && ((((b0 as u16) << 8u16) | (b1 as u16)) as u8) == b1)
        by (bit_vector);
    assert(be16(v) =~= seq![b0, b1]);
}

/// Encoding the value of four big-endian bytes gives the bytes back.
pub proof fn lemma_from_be32_round_trip(b0: u8, b1: u8, b2: u8, b3: u8)
    ensures
        be32(from_be32(b0, b1, b2, b3)) == seq![b0, b1, b2, b3],
{
    let v = from_be32(b0, b1, b2, b3);
    assert(((v >> 24u32) as u8) == b0 && ((v >> 16u32) as u8) == b1 && ((v >> 8u32) as u8) == b2 && (v as u8) == b3)
        by (bit_vector)
        requires
            v == ((b0 as u32) << 24u32) | ((b1 as u32) << 16u32) | ((b2 as u32) << 8u32) | (b3 as u32),
    ;
    assert(be32(v) =~= seq![b0, b1, b2, b3]);
}

} // verus!
