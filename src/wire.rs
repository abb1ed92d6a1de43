//! Fixed-width integers and byte runs on the wire.

use vstd::prelude::*;

use bytes::BytesMut;

use crate::bindings::{
    buffer_content, buffer_put_u16, buffer_put_u16_le, buffer_put_u32, buffer_put_u32_le, room,
};
use crate::packet_header::Endianness;

verus! {

/// The two bytes of `n`, most significant first for big endian.
pub open spec fn u16_bytes(n: u16, e: Endianness) -> Seq<u8> {
    let hi = (n as int / 256) as u8;
    let lo = (n as int % 256) as u8;
    match e {
        Endianness::BigEndian => seq![hi, lo],
        Endianness::LittleEndian => seq![lo, hi],
    }
}

/// The four bytes of `n`, most significant first for big endian.
pub open spec fn u32_bytes(n: u32, e: Endianness) -> Seq<u8> {
    let b3 = (n as int / 0x100_0000) as u8;
    let b2 = ((n as int / 0x1_0000) % 256) as u8;
    let b1 = ((n as int / 0x100) % 256) as u8;
    let b0 = (n as int % 256) as u8;
    match e {
        Endianness::BigEndian => seq![b3, b2, b1, b0],
        Endianness::LittleEndian => seq![b0, b1, b2, b3],
    }
}

/// The integer that two bytes spell in the given byte order.
pub open spec fn u16_from(b: Seq<u8>, e: Endianness) -> u16 {
    match e {
        Endianness::BigEndian => (b[0] as int * 256 + b[1] as int) as u16,
        Endianness::LittleEndian => (b[1] as int * 256 + b[0] as int) as u16,
    }
}

/// The integer that four bytes spell in the given byte order.
pub open spec fn u32_from(b: Seq<u8>, e: Endianness) -> u32 {
    match e {
        Endianness::BigEndian => (b[0] as int * 0x100_0000 + b[1] as int * 0x1_0000 + b[2] as int
            * 0x100 + b[3] as int) as u32,
        Endianness::LittleEndian => (b[3] as int * 0x100_0000 + b[2] as int * 0x1_0000 + b[1] as int
            * 0x100 + b[0] as int) as u32,
    }
}

/// `count` zero bytes.
pub open spec fn zeros(count: nat) -> Seq<u8> {
    Seq::new(count, |i: int| 0u8)
}

/// Reading back the two bytes of an integer gives the integer.
pub proof fn lemma_u16_round_trip(n: u16, e: Endianness)
    ensures
        u16_bytes(n, e).len() == 2,
        u16_from(u16_bytes(n, e), e) == n,
{
    let hi = n as int / 256;
    let lo = n as int % 256;
    assert(hi * 256 + lo == n as int);
    assert(0 <= hi < 256);
}

/// Reading back the four bytes of an integer gives the integer.
pub proof fn lemma_u32_round_trip(n: u32, e: Endianness)
    ensures
        u32_bytes(n, e).len() == 4,
        u32_from(u32_bytes(n, e), e) == n,
{
    let x = n as int;
    let b3 = x / 0x100_0000;
    let b2 = (x / 0x1_0000) % 256;
    let b1 = (x / 0x100) % 256;
    let b0 = x % 256;
    assert(0 <= b3 < 256);
    assert(b3 * 0x100_0000 + b2 * 0x1_0000 + b1 * 0x100 + b0 == x);
}

/// Appends the two bytes of `n` in the given byte order.
pub fn put_u16(buf: &mut BytesMut, n: u16, e: Endianness)
    requires
        room(*old(buf), 2),
    ensures
        buffer_content(*final(buf)) == buffer_content(*old(buf)) + u16_bytes(n, e),
{
    match e {
        Endianness::BigEndian => buffer_put_u16(buf, n),
        Endianness::LittleEndian => buffer_put_u16_le(buf, n),
    }
}

/// Appends the four bytes of `n` in the given byte order.
pub fn put_u32(buf: &mut BytesMut, n: u32, e: Endianness)
    requires
        room(*old(buf), 4),
    ensures
        buffer_content(*final(buf)) == buffer_content(*old(buf)) + u32_bytes(n, e),
{
    match e {
        Endianness::BigEndian => buffer_put_u32(buf, n),
        Endianness::LittleEndian => buffer_put_u32_le(buf, n),
    }
}

/// Reads the integer whose two bytes start at `at`.
pub fn read_u16(bytes: &[u8], at: usize, e: Endianness) -> (r: u16)
    requires
        at + 2 <= bytes@.len(),
    ensures
        r == u16_from(bytes@.subrange(at as int, at + 2), e),
{
    let b0 = bytes[at] as u16;
    let b1 = bytes[at + 1] as u16;
    match e {
        Endianness::BigEndian => b0 * 256 + b1,
        Endianness::LittleEndian => b1 * 256 + b0,
    }
}

/// Reads the integer whose four bytes start at `at`.
pub fn read_u32(bytes: &[u8], at: usize, e: Endianness) -> (r: u32)
    requires
        at + 4 <= bytes@.len(),
    ensures
        r == u32_from(bytes@.subrange(at as int, at + 4), e),
{
    let b0 = bytes[at] as u32;
    let b1 = bytes[at + 1] as u32;
    let b2 = bytes[at + 2] as u32;
    let b3 = bytes[at + 3] as u32;
    match e {
        Endianness::BigEndian => b0 * 0x100_0000 + b1 * 0x1_0000 + b2 * 0x100 + b3,
        Endianness::LittleEndian => b3 * 0x100_0000 + b2 * 0x1_0000 + b1 * 0x100 + b0,
    }
}

} // verus!
