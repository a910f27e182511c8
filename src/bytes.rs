//! Big-endian emission of integer fields into a growable byte buffer.
use vstd::prelude::*;

verus! {

/// The four bytes of `x`, most significant first.
pub open spec fn be32(x: u32) -> Seq<u8> {
    seq![(x >> 24u32) as u8, (x >> 16u32) as u8, (x >> 8u32) as u8, x as u8]
}

/// The two bytes of `x`, most significant first.
pub open spec fn be16(x: u16) -> Seq<u8> {
    seq![(x >> 8u16) as u8, x as u8]
}

/// The four bytes of `x`, least significant first.
pub open spec fn le32(x: u32) -> Seq<u8> {
    seq![x as u8, (x >> 8u32) as u8, (x >> 16u32) as u8, (x >> 24u32) as u8]
}

/// The two bytes of `x`, least significant first.
pub open spec fn le16(x: u16) -> Seq<u8> {
    seq![x as u8, (x >> 8u16) as u8]
}

/// Appends `num` to `buf` in big-endian order.
pub fn push_u32(buf: &mut Vec<u8>, num: u32)
    ensures
        final(buf)@ == old(buf)@ + be32(num),
{
    buf.push((num >> 24u32) as u8);
    buf.push((num >> 16u32) as u8);
    buf.push((num >> 8u32) as u8);
    buf.push(num as u8);
    assert(final(buf)@ =~= old(buf)@ + be32(num));
}

/// Appends `num` to `buf` in big-endian order.
pub fn push_u16(buf: &mut Vec<u8>, num: u16)
    ensures
        final(buf)@ == old(buf)@ + be16(num),
{
    buf.push((num >> 8u16) as u8);
    buf.push(num as u8);
    assert(final(buf)@ =~= old(buf)@ + be16(num));
}

/// Reading the two bytes of `be16(x)` back as a big-endian number gives `x`.
pub proof fn lemma_be16_value(x: u16)
    ensures
        be16(x)[0] as int * 256 + be16(x)[1] as int == x as int,
{
    let hi = (x >> 8u16) as u8;
    let lo = x as u8;
    assert(hi as u16 * 256 + lo as u16 == x) by (bit_vector)
        requires
            hi == (x >> 8u16) as u8,
            lo == x as u8,
    ;
}

/// The bytes of a zero field are all zero.
pub proof fn lemma_be32_zero()
    ensures
        be32(0) == seq![0u8, 0u8, 0u8, 0u8],
{
    assert(((0u32 >> 24u32) as u8) == 0u8 && ((0u32 >> 16u32) as u8) == 0u8 && ((0u32 >> 8u32) as u8) == 0u8) by (bit_vector);
    assert(be32(0) =~= seq![0u8, 0u8, 0u8, 0u8]);
}

} // verus!
