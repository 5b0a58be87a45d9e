//! Little-endian integers on the wire.
use byteorder::{ByteOrder, LittleEndian};
use vstd::prelude::*;

verus! {

/// The 16-bit integer whose little-endian bytes start `bytes`.
pub open spec fn u16_from_le(bytes: Seq<u8>) -> int
    recommends
        bytes.len() >= 2,
{
    bytes[0] + 0x100 * bytes[1]
}

/// The 32-bit integer whose little-endian bytes start `bytes`.
pub open spec fn u32_from_le(bytes: Seq<u8>) -> int
    recommends
        bytes.len() >= 4,
{
    bytes[0] + 0x100 * bytes[1] + 0x1_0000 * bytes[2] + 0x100_0000 * bytes[3]
}

/// The two little-endian bytes of `n`, lowest first.
pub open spec fn u16_to_le(n: u16) -> Seq<u8> {
    seq![(n % 0x100) as u8, (n / 0x100) as u8]
}

/// The four little-endian bytes of `n`, lowest first.
pub open spec fn u32_to_le(n: u32) -> Seq<u8> {
    seq![
        (n % 0x100) as u8,
        ((n / 0x100) % 0x100) as u8,
        ((n / 0x1_0000) % 0x100) as u8,
        (n / 0x100_0000) as u8,
    ]
}

/// Reading back the bytes of a 16-bit integer gives the integer, whatever
/// follows them.
pub proof fn lemma_u16_le_round_trip(n: u16, rest: Seq<u8>)
    ensures
        u16_from_le(u16_to_le(n) + rest) == n,
        u16_to_le(n).len() == 2,
{
}

/// Reading back the bytes of a 32-bit integer gives the integer, whatever
/// follows them.
pub proof fn lemma_u32_le_round_trip(n: u32, rest: Seq<u8>)
    ensures
        u32_from_le(u32_to_le(n) + rest) == n,
        u32_to_le(n).len() == 4,
{
}

/// `byteorder::LittleEndian::read_u16`: the integer made of the first two
/// bytes of `buf`, the first byte being the low one. The call panics on a
/// shorter buffer, which `requires` leaves out.
#[verifier::external_body]
pub(crate) fn read_u16(buf: &[u8]) -> (n: u16)
    requires
        buf@.len() >= 2,
    ensures
        n == u16_from_le(buf@),
{
    LittleEndian::read_u16(buf)
}

/// `byteorder::LittleEndian::read_u32`: the integer made of the first four
/// bytes of `buf`, the first byte being the lowest one. The call panics on a
/// shorter buffer, which `requires` leaves out.
#[verifier::external_body]
pub(crate) fn read_u32(buf: &[u8]) -> (n: u32)
    requires
        buf@.len() >= 4,
    ensures
        n == u32_from_le(buf@),
{
    LittleEndian::read_u32(buf)
}

/// `byteorder::LittleEndian::write_u16`: puts the two bytes of `n`, low byte
/// first, over the first two bytes of `buf` and leaves the rest as it was.
/// The call panics on a shorter buffer, which `requires` leaves out.
#[verifier::external_body]
pub(crate) fn write_u16(buf: &mut [u8], n: u16)
    requires
        old(buf)@.len() >= 2,
    ensures
        final(buf)@ == u16_to_le(n) + old(buf)@.skip(2),
{
    LittleEndian::write_u16(buf, n)
}

/// `byteorder::LittleEndian::write_u32`: puts the four bytes of `n`, lowest
/// byte first, over the first four bytes of `buf` and leaves the rest as it
/// was. The call panics on a shorter buffer, which `requires` leaves out.
#[verifier::external_body]
pub(crate) fn write_u32(buf: &mut [u8], n: u32)
    requires
        old(buf)@.len() >= 4,
    ensures
        final(buf)@ == u32_to_le(n) + old(buf)@.skip(4),
{
    LittleEndian::write_u32(buf, n)
}

/// The little-endian bytes of a 16-bit integer.
pub fn u16_bytes(n: u16) -> (bytes: Vec<u8>)
    ensures
        bytes@ == u16_to_le(n),
{
    let mut bytes: Vec<u8> = vec![0u8; 2];
    write_u16(bytes.as_mut_slice(), n);
    assert(bytes@ == u16_to_le(n));
    bytes
}

/// The little-endian bytes of a 32-bit integer.
pub fn u32_bytes(n: u32) -> (bytes: Vec<u8>)
    ensures
        bytes@ == u32_to_le(n),
{
    let mut bytes: Vec<u8> = vec![0u8; 4];
    write_u32(bytes.as_mut_slice(), n);
    assert(bytes@ == u32_to_le(n));
    bytes
}

} // verus!
