//! What the library takes from outside crates, with what it relies on.

use vstd::prelude::*;

use crate::packet_header::Endianness;
use crate::wire::{u16_bytes, u32_bytes, zeros};

verus! {

#[verifier::external_type_specification]
#[verifier::external_body]
pub struct ExBytes(bytes::Bytes);

/// The bytes that a `bytes::Bytes` buffer holds.
pub uninterp spec fn bytes_content(b: bytes::Bytes) -> Seq<u8>;

#[verifier::external_type_specification]
#[verifier::external_body]
pub struct ExBytesMut(bytes::BytesMut);

/// The bytes that a `bytes::BytesMut` buffer holds.
pub uninterp spec fn buffer_content(b: bytes::BytesMut) -> Seq<u8>;

/// Whether `n` more bytes can be written to the buffer without its length
/// passing `isize::MAX`, where growing it panics.
pub open spec fn room(b: bytes::BytesMut, n: nat) -> bool {
    buffer_content(b).len() + n <= isize::MAX
}

/// Relies on `bytes::BytesMut::with_capacity`: an empty buffer, allocated by
/// `Vec::with_capacity`, which panics past `isize::MAX` bytes.
#[verifier::external_body]
pub(crate) fn buffer_with_capacity(capacity: usize) -> (r: bytes::BytesMut)
    requires
        capacity <= isize::MAX,
    ensures
        buffer_content(r) == Seq::<u8>::empty(),
{
    bytes::BytesMut::with_capacity(capacity)
}

/// Relies on `<bytes::BytesMut as BufMut>::put_u8`: appends the byte.
#[verifier::external_body]
pub(crate) fn buffer_put_u8(buf: &mut bytes::BytesMut, n: u8)
    requires
        room(*old(buf), 1),
    ensures
        buffer_content(*final(buf)) == buffer_content(*old(buf)).push(n),
{
    bytes::BufMut::put_u8(buf, n)
}

/// Relies on `<bytes::BytesMut as BufMut>::put_u16`: appends the two bytes
/// of `n`, most significant first.
#[verifier::external_body]
pub(crate) fn buffer_put_u16(buf: &mut bytes::BytesMut, n: u16)
    requires
        room(*old(buf), 2),
    ensures
        buffer_content(*final(buf)) == buffer_content(*old(buf)) + u16_bytes(
            n,
            Endianness::BigEndian,
        ),
{
    bytes::BufMut::put_u16(buf, n)
}

/// Relies on `<bytes::BytesMut as BufMut>::put_u16_le`: appends the two
/// bytes of `n`, least significant first.
#[verifier::external_body]
pub(crate) fn buffer_put_u16_le(buf: &mut bytes::BytesMut, n: u16)
    requires
        room(*old(buf), 2),
    ensures
        buffer_content(*final(buf)) == buffer_content(*old(buf)) + u16_bytes(
            n,
            Endianness::LittleEndian,
        ),
{
    bytes::BufMut::put_u16_le(buf, n)
}

/// Relies on `<bytes::BytesMut as BufMut>::put_u32`: appends the four bytes
/// of `n`, most significant first.
#[verifier::external_body]
pub(crate) fn buffer_put_u32(buf: &mut bytes::BytesMut, n: u32)
    requires
        room(*old(buf), 4),
    ensures
        buffer_content(*final(buf)) == buffer_content(*old(buf)) + u32_bytes(
            n,
            Endianness::BigEndian,
        ),
{
    bytes::BufMut::put_u32(buf, n)
}

/// Relies on `<bytes::BytesMut as BufMut>::put_u32_le`: appends the four
/// bytes of `n`, least significant first.
#[verifier::external_body]
pub(crate) fn buffer_put_u32_le(buf: &mut bytes::BytesMut, n: u32)
    requires
        room(*old(buf), 4),
    ensures
        buffer_content(*final(buf)) == buffer_content(*old(buf)) + u32_bytes(
            n,
            Endianness::LittleEndian,
        ),
{
    bytes::BufMut::put_u32_le(buf, n)
}

/// Relies on `<bytes::BytesMut as BufMut>::put_slice`: appends the bytes of
/// `src`, in order.
#[verifier::external_body]
pub(crate) fn buffer_put_slice(buf: &mut bytes::BytesMut, src: &[u8])
    requires
        room(*old(buf), src@.len()),
    ensures
        buffer_content(*final(buf)) == buffer_content(*old(buf)) + src@,
{
    bytes::BufMut::put_slice(buf, src)
}

/// Relies on `<bytes::BytesMut as BufMut>::put_bytes`: appends `count`
/// copies of the byte 0.
#[verifier::external_body]
pub(crate) fn buffer_put_zeros(buf: &mut bytes::BytesMut, count: usize)
    requires
        room(*old(buf), count as nat),
    ensures
        buffer_content(*final(buf)) == buffer_content(*old(buf)) + zeros(count as nat),
{
    bytes::BufMut::put_bytes(buf, 0, count)
}

/// Relies on `bytes::BytesMut::freeze`: an immutable buffer holding the
/// same bytes.
#[verifier::external_body]
pub(crate) fn buffer_freeze(buf: bytes::BytesMut) -> (r: bytes::Bytes)
    ensures
        bytes_content(r) == buffer_content(buf),
{
    buf.freeze()
}

#[verifier::external_type_specification]
#[verifier::external_body]
pub struct ExRegexError(regex_lite::Error);

/// Whether `pattern` compiles as a regular expression.
pub uninterp spec fn regex_compiles(pattern: Seq<char>) -> bool;

/// Whether the regular expression `pattern` matches somewhere in `haystack`.
pub uninterp spec fn regex_finds(pattern: Seq<char>, haystack: Seq<char>) -> bool;

/// Relies on `regex_lite::Regex::new`, which compiles `pattern` or fails, and
/// on `regex_lite::Regex::is_match`, which tells whether the compiled
/// expression matches anywhere in `haystack`. Compiling with the default
/// settings depends on the pattern alone, and matching on the pattern and the
/// text alone.
#[verifier::external_body]
pub(crate) fn regex_is_match(pattern: &str, haystack: &str) -> (r: Result<bool, regex_lite::Error>)
    ensures
        r is Err <==> !regex_compiles(pattern@),
        r matches Ok(found) ==> found == regex_finds(pattern@, haystack@),
{
    let re = regex_lite::Regex::new(pattern)?;
    Ok(re.is_match(haystack))
}

} // verus!
