//! Little-endian integers in byte buffers, by the `byteorder` crate.

use byteorder::{ByteOrder, LittleEndian};
use vstd::prelude::*;

verus! {

/// The number whose little-endian form the first two bytes of `s` are.
pub open spec fn le_u16(s: Seq<u8>) -> u16 {
    (s[0] + 0x100 * s[1]) as u16
}

/// The number whose little-endian form the first four bytes of `s` are.
pub open spec fn le_u32(s: Seq<u8>) -> u32 {
    (s[0] + 0x100 * s[1] + 0x1_0000 * s[2] + 0x100_0000 * s[3]) as u32
}

/// The two bytes of `n`, least significant first.
pub open spec fn le_bytes_u16(n: u16) -> Seq<u8> {
    seq![(n % 0x100) as u8, (n / 0x100) as u8]
}

/// The four bytes of `n`, least significant first.
pub open spec fn le_bytes_u32(n: u32) -> Seq<u8> {
    seq![
        (n % 0x100) as u8,
        (n / 0x100 % 0x100) as u8,
        (n / 0x1_0000 % 0x100) as u8,
        (n / 0x100_0000) as u8,
    ]
}

/// `s` with the bytes from `at` on overwritten by `bytes`.
pub open spec fn overwritten(s: Seq<u8>, at: int, bytes: Seq<u8>) -> Seq<u8> {
    s.take(at) + bytes + s.skip(at + bytes.len())
}

/// Calls `byteorder::LittleEndian::read_u16`. It is trusted that it returns the number whose
/// little-endian form the first two bytes of `buf` are, and panics only on fewer than two bytes.
#[verifier::external_body]
pub(crate) fn read_u16(buf: &[u8]) -> (res: u16)
    requires
        buf@.len() >= 2,
    ensures
        res == le_u16(buf@),
{
    LittleEndian::read_u16(buf)
}

/// Calls `byteorder::LittleEndian::read_u32`. It is trusted that it returns the number whose
/// little-endian form the first four bytes of `buf` are, and panics only on fewer than four
/// bytes.
#[verifier::external_body]
pub(crate) fn read_u32(buf: &[u8]) -> (res: u32)
    requires
        buf@.len() >= 4,
    ensures
        res == le_u32(buf@),
{
    LittleEndian::read_u32(buf)
}

/// Calls `byteorder::LittleEndian::write_u16` on the part of `buf` that starts at `at`. It is
/// trusted that it puts the two bytes of `n` there, least significant first, changes no other
/// byte, and panics only where fewer than two bytes follow `at`.
#[verifier::external_body]
pub(crate) fn write_u16(buf: &mut Vec<u8>, at: usize, n: u16)
    requires
        at + 2 <= old(buf)@.len(),
    ensures
        final(buf)@ == overwritten(old(buf)@, at as int, le_bytes_u16(n)),
{
    LittleEndian::write_u16(&mut buf[at..], n)
}

/// Calls `byteorder::LittleEndian::write_u32` on the part of `buf` that starts at `at`. It is
/// trusted that it puts the four bytes of `n` there, least significant first, changes no other
/// byte, and panics only where fewer than four bytes follow `at`.
#[verifier::external_body]
pub(crate) fn write_u32(buf: &mut Vec<u8>, at: usize, n: u32)
    requires
        at + 4 <= old(buf)@.len(),
    ensures
        final(buf)@ == overwritten(old(buf)@, at as int, le_bytes_u32(n)),
{
    LittleEndian::write_u32(&mut buf[at..], n)
}

/// Reading what was written gives the number back.
pub proof fn u16_written_is_read_back(n: u16, rest: Seq<u8>)
    ensures
        le_u16(le_bytes_u16(n) + rest) == n,
{
}

/// Reading what was written gives the number back.
pub proof fn u32_written_is_read_back(n: u32, rest: Seq<u8>)
    ensures
        le_u32(le_bytes_u32(n) + rest) == n,
{
}

/// Writing what was read gives the bytes back.
pub proof fn u16_read_is_written_back(s: Seq<u8>)
    requires
        s.len() >= 2,
    ensures
        le_bytes_u16(le_u16(s)) == s.take(2),
{
    assert(le_bytes_u16(le_u16(s)) =~= s.take(2));
}

/// Writing what was read gives the bytes back.
pub proof fn u32_read_is_written_back(s: Seq<u8>)
    requires
        s.len() >= 4,
    ensures
        le_bytes_u32(le_u32(s)) == s.take(4),
{
    let n = le_u32(s);
    let (b0, b1, b2, b3) = (s[0], s[1], s[2], s[3]);
    assert(n as int == b0 + 0x100 * b1 + 0x1_0000 * b2 + 0x100_0000 * b3);
    assert(n / 0x100 == b1 + 0x100 * b2 + 0x1_0000 * b3);
    assert(n / 0x1_0000 == b2 + 0x100 * b3);
    assert(n / 0x100_0000 == b3);
    assert(n % 0x100 == b0);
    assert(n / 0x100 % 0x100 == b1);
    assert(n / 0x1_0000 % 0x100 == b2);
    assert(le_bytes_u32(n) =~= s.take(4));
}

} // verus!
