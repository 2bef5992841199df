//! Network (big-endian) byte order for the integers that socket addresses carry.

use vstd::prelude::*;

verus! {

/// The two bytes of `x` in network byte order, most significant first.
pub open spec fn be16(x: u16) -> Seq<u8> {
    seq![(x / 256) as u8, (x % 256) as u8]
}

/// The four bytes of `x` in network byte order, most significant first.
pub open spec fn be32(x: u32) -> Seq<u8> {
    seq![
        (x / 0x100_0000) as u8,
        ((x / 0x1_0000) % 256) as u8,
        ((x / 256) % 256) as u8,
        (x % 256) as u8,
    ]
}

/// The value whose network-order bytes are `b[0]`, `b[1]`.
pub open spec fn be16_value(b: Seq<u8>) -> int {
    b[0] * 256 + b[1]
}

/// The value whose network-order bytes are `b[0]` .. `b[3]`.
pub open spec fn be32_value(b: Seq<u8>) -> int {
    ((b[0] * 256 + b[1]) * 256 + b[2]) * 256 + b[3]
}

/// Writes `x` in network byte order.
pub fn u16_to_network(x: u16) -> (b: [u8; 2])
    ensures
        b@ == be16(x),
{
    let hi: u8 = (x / 256) as u8;
    let lo: u8 = (x % 256) as u8;
    [hi, lo]
}

/// Writes `x` in network byte order.
pub fn u32_to_network(x: u32) -> (b: [u8; 4])
    ensures
        b@ == be32(x),
{
    let b0: u8 = (x / 0x100_0000) as u8;
    let b1: u8 = ((x / 0x1_0000) % 256) as u8;
    let b2: u8 = ((x / 256) % 256) as u8;
    let b3: u8 = (x % 256) as u8;
    [b0, b1, b2, b3]
}

/// Reading back a 16-bit value written in network byte order gives the value.
pub proof fn lemma_be16_roundtrip(x: u16)
    ensures
        be16(x).len() == 2,
        be16_value(be16(x)) == x,
{
}

/// Reading back a 32-bit value written in network byte order gives the value.
pub proof fn lemma_be32_roundtrip(x: u32)
    ensures
        be32(x).len() == 4,
        be32_value(be32(x)) == x,
{
}

/// Distinct 16-bit values have distinct network-order encodings.
pub proof fn lemma_be16_injective(x: u16, y: u16)
    requires
        be16(x) == be16(y),
    ensures
        x == y,
{
    lemma_be16_roundtrip(x);
    lemma_be16_roundtrip(y);
}

/// Distinct 32-bit values have distinct network-order encodings.
pub proof fn lemma_be32_injective(x: u32, y: u32)
    requires
        be32(x) == be32(y),
    ensures
        x == y,
{
    lemma_be32_roundtrip(x);
    lemma_be32_roundtrip(y);
}

/// Network byte order puts the most significant byte first: the first byte
/// of a 16-bit value is its high byte (bits 8-15), the second its low byte.
pub proof fn law_be16_most_significant_first(x: u16)
    ensures
        be16(x).len() == 2,
        be16(x)[0] == (x >> 8u16) as u8,
        be16(x)[1] == (x & 0xffu16) as u8,
{
    assert((x >> 8u16) == x / 256 && (x & 0xffu16) == x % 256) by (bit_vector);
}

/// Network byte order puts the most significant byte first: byte `i` of a
/// 32-bit value holds bits `8 * (3 - i)` to `8 * (3 - i) + 7`.
pub proof fn law_be32_most_significant_first(x: u32)
    ensures
        be32(x).len() == 4,
        be32(x)[0] == (x >> 24u32) as u8,
        be32(x)[1] == ((x >> 16u32) & 0xffu32) as u8,
        be32(x)[2] == ((x >> 8u32) & 0xffu32) as u8,
        be32(x)[3] == (x & 0xffu32) as u8,
{
    assert((x >> 24u32) == x / 0x100_0000 && ((x >> 16u32) & 0xffu32) == (x / 0x1_0000) % 256
        && ((x >> 8u32) & 0xffu32) == (x / 256) % 256 && (x & 0xffu32) == x % 256) by (bit_vector);
}

} // verus!
