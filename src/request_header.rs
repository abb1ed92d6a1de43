//! The fixed 36-byte table of lengths, offsets and counts that follows the
//! packet header of a request.

use vstd::prelude::*;

use bytes::{Bytes, BytesMut};

use crate::bindings::{buffer_content, buffer_freeze, buffer_with_capacity, bytes_content, room};
use crate::packet_header::Endianness;
use crate::wire::{put_u32, u32_bytes};

verus! {

/// Size of a request header on the wire.
pub const REQUEST_HEADER_LEN: usize = 36;

/// What a request header holds.
pub struct RequestHeaderView {
    pub http_header_length: u32,
    pub request_body_length: u32,
    pub script_filename_offset: u32,
    pub script_name_offset: u32,
    pub query_string_offset: u32,
    pub request_method_offset: u32,
    pub unknown_headers_count: u32,
    pub env_variables_count: u32,
    pub special_env_variables_count: u32,
}

impl RequestHeaderView {
    /// The nine fields, in order, each as four bytes in the given byte order.
    pub open spec fn bytes(self, e: Endianness) -> Seq<u8> {
        u32_bytes(self.http_header_length, e)
            + u32_bytes(self.request_body_length, e)
            + u32_bytes(self.script_filename_offset, e)
            + u32_bytes(self.script_name_offset, e)
            + u32_bytes(self.query_string_offset, e)
            + u32_bytes(self.request_method_offset, e)
            + u32_bytes(self.unknown_headers_count, e)
            + u32_bytes(self.env_variables_count, e)
            + u32_bytes(self.special_env_variables_count, e)
    }
}

/// Offsets of the four required variables, counts of the variable tables,
/// and the lengths of the HTTP headers and of the body. An offset of zero
/// means that the variable is absent.
#[derive(Clone, Copy, Debug)]
pub struct RequestHeader {
    http_header_length: u32,
    request_body_length: u32,
    script_filename_offset: u32,
    script_name_offset: u32,
    query_string_offset: u32,
    request_method_offset: u32,
    unknown_headers_count: u32,
    env_variables_count: u32,
    special_env_variables_count: u32,
}

impl View for RequestHeader {
    type V = RequestHeaderView;

    closed spec fn view(&self) -> RequestHeaderView {
        RequestHeaderView {
            http_header_length: self.http_header_length,
            request_body_length: self.request_body_length,
            script_filename_offset: self.script_filename_offset,
            script_name_offset: self.script_name_offset,
            query_string_offset: self.query_string_offset,
            request_method_offset: self.request_method_offset,
            unknown_headers_count: self.unknown_headers_count,
            env_variables_count: self.env_variables_count,
            special_env_variables_count: self.special_env_variables_count,
        }
    }
}

impl RequestHeader {
    /// A header whose fields are all zero.
    pub fn new() -> (r: Self)
        ensures
            r@ == (RequestHeaderView {
                http_header_length: 0,
                request_body_length: 0,
                script_filename_offset: 0,
                script_name_offset: 0,
                query_string_offset: 0,
                request_method_offset: 0,
                unknown_headers_count: 0,
                env_variables_count: 0,
                special_env_variables_count: 0,
            }),
    {
        RequestHeader {
            http_header_length: 0,
            request_body_length: 0,
            script_filename_offset: 0,
            script_name_offset: 0,
            query_string_offset: 0,
            request_method_offset: 0,
            unknown_headers_count: 0,
            env_variables_count: 0,
            special_env_variables_count: 0,
        }
    }

    pub fn http_header_length(&mut self, length: u32) -> (r: &Self)
        ensures
            final(self)@ == (RequestHeaderView { http_header_length: length, ..old(self)@ }),
            *r == *final(self),
    {
        self.http_header_length = length;
        self
    }

    pub fn request_body_length(&mut self, length: u32) -> (r: &Self)
        ensures
            final(self)@ == (RequestHeaderView { request_body_length: length, ..old(self)@ }),
            *r == *final(self),
    {
        self.request_body_length = length;
        self
    }

    pub fn script_filename_offset(&mut self, offset: u32) -> (r: &Self)
        ensures
            final(self)@ == (RequestHeaderView { script_filename_offset: offset, ..old(self)@ }),
            *r == *final(self),
    {
        self.script_filename_offset = offset;
        self
    }

    pub fn get_script_filename_offset(&self) -> (r: u32)
        ensures
            r == self@.script_filename_offset,
    {
        self.script_filename_offset
    }

    pub fn script_name_offset(&mut self, offset: u32) -> (r: &Self)
        ensures
            final(self)@ == (RequestHeaderView { script_name_offset: offset, ..old(self)@ }),
            *r == *final(self),
    {
        self.script_name_offset = offset;
        self
    }

    pub fn get_script_name_offset(&self) -> (r: u32)
        ensures
            r == self@.script_name_offset,
    {
        self.script_name_offset
    }

    pub fn query_string_offset(&mut self, offset: u32) -> (r: &Self)
        ensures
            final(self)@ == (RequestHeaderView { query_string_offset: offset, ..old(self)@ }),
            *r == *final(self),
    {
        self.query_string_offset = offset;
        self
    }

    pub fn get_query_string_offset(&self) -> (r: u32)
        ensures
            r == self@.query_string_offset,
    {
        self.query_string_offset
    }

    pub fn request_method_offset(&mut self, offset: u32) -> (r: &Self)
        ensures
            final(self)@ == (RequestHeaderView { request_method_offset: offset, ..old(self)@ }),
            *r == *final(self),
    {
        self.request_method_offset = offset;
        self
    }

    pub fn get_request_method_offset(&self) -> (r: u32)
        ensures
            r == self@.request_method_offset,
    {
        self.request_method_offset
    }

    pub fn unknown_headers_count(&mut self, count: u32) -> (r: &Self)
        ensures
            final(self)@ == (RequestHeaderView { unknown_headers_count: count, ..old(self)@ }),
            *r == *final(self),
    {
        self.unknown_headers_count = count;
        self
    }

    pub fn env_variables_count(&mut self, count: u32) -> (r: &Self)
        ensures
            final(self)@ == (RequestHeaderView { env_variables_count: count, ..old(self)@ }),
            *r == *final(self),
    {
        self.env_variables_count = count;
        self
    }

    pub fn get_env_variables_count(&self) -> (r: u32)
        ensures
            r == self@.env_variables_count,
    {
        self.env_variables_count
    }

    pub fn special_env_variables_count(&mut self, count: u32) -> (r: &Self)
        ensures
            final(self)@ == (RequestHeaderView { special_env_variables_count: count, ..old(self)@ }),
            *r == *final(self),
    {
        self.special_env_variables_count = count;
        self
    }

    /// Size of the header on the wire.
    pub fn len(&self) -> (r: usize)
        ensures
            r == 36,
    {
        REQUEST_HEADER_LEN
    }

    /// Appends the header's 36 bytes.
    pub fn encode_into(&self, buf: &mut BytesMut, endianness: Endianness)
        requires
            room(*old(buf), 36),
        ensures
            buffer_content(*final(buf)) == buffer_content(*old(buf)) + self@.bytes(endianness),
    {
        let ghost start = buffer_content(*buf);
        put_u32(buf, self.http_header_length, endianness);
        assert(buffer_content(*buf).len() == start.len() + 4);
        put_u32(buf, self.request_body_length, endianness);
        assert(buffer_content(*buf).len() == start.len() + 8);
        put_u32(buf, self.script_filename_offset, endianness);
        assert(buffer_content(*buf).len() == start.len() + 12);
        put_u32(buf, self.script_name_offset, endianness);
        assert(buffer_content(*buf).len() == start.len() + 16);
        put_u32(buf, self.query_string_offset, endianness);
        assert(buffer_content(*buf).len() == start.len() + 20);
        put_u32(buf, self.request_method_offset, endianness);
        assert(buffer_content(*buf).len() == start.len() + 24);
        put_u32(buf, self.unknown_headers_count, endianness);
        assert(buffer_content(*buf).len() == start.len() + 28);
        put_u32(buf, self.env_variables_count, endianness);
        assert(buffer_content(*buf).len() == start.len() + 32);
        put_u32(buf, self.special_env_variables_count, endianness);
        assert(buffer_content(*buf).len() == start.len() + 36);
        assert(buffer_content(*buf) =~= start + self@.bytes(endianness));
    }

    /// The header's 36 bytes.
    pub fn encode(&self, endianness: Endianness) -> (r: Bytes)
        ensures
            bytes_content(r) == self@.bytes(endianness),
    {
        let mut buf = buffer_with_capacity(REQUEST_HEADER_LEN);
        self.encode_into(&mut buf, endianness);
        assert(buffer_content(buf) =~= self@.bytes(endianness));
        buffer_freeze(buf)
    }

    pub fn into_bytes(self, endianness: Endianness) -> (r: Bytes)
        ensures
            bytes_content(r) == self@.bytes(endianness),
    {
        self.encode(endianness)
    }
}

impl Default for RequestHeader {
    fn default() -> (r: Self)
        ensures
            r@ == (RequestHeaderView {
                http_header_length: 0,
                request_body_length: 0,
                script_filename_offset: 0,
                script_name_offset: 0,
                query_string_offset: 0,
                request_method_offset: 0,
                unknown_headers_count: 0,
                env_variables_count: 0,
                special_env_variables_count: 0,
            }),
    {
        RequestHeader::new()
    }
}

} // verus!
