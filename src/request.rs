//! Assembly of a request message: packet header, request header, the
//! required variables, the general table and the alignment padding.

use vstd::prelude::*;
use vstd::string::StringSliceAdditionalSpecFns;

use bytes::Bytes;

use crate::bindings::{buffer_content, buffer_freeze, buffer_put_zeros, buffer_with_capacity, bytes_content};
use crate::env_variables::{
    encode_table, encode_var, lemma_encode_var_len, lemma_encode_vars_len, lemma_name_fits,
    slot_bytes, slot_len, table_len, var_len, EnvVariableView, EnvVariables,
    RequiredEnvVariables, RequiredView, MAX_TEXT_LEN,
};
use crate::packet_header::{
    decode_packet_header, lemma_packet_header_round_trip, Endianness, PacketHeader,
    PacketHeaderView, PacketType,
};
use crate::request_header::{RequestHeader, RequestHeaderView};
use crate::wire::{lemma_u32_round_trip, zeros};

verus! {

/// Where the body starts: after the 8-byte packet header and the 36-byte
/// request header.
pub const BODY_START: usize = 44;

/// Number of zero bytes that bring `n` to the next multiple of 8.
pub open spec fn padding_for(n: nat) -> nat {
    ((8 - n % 8) % 8) as nat
}

/// The offset field of a required variable: where it starts, or zero when
/// it is absent.
pub open spec fn offset_field(slot: Option<EnvVariableView>, at: int) -> u32 {
    if slot is Some {
        at as u32
    } else {
        0
    }
}

/// What a request holds: the byte order it is written in, the four required
/// variables and the general table.
pub struct RequestView {
    pub endianness: Endianness,
    pub required: RequiredView,
    pub general: Seq<EnvVariableView>,
}

impl RequestView {
    /// Where the script filename starts when present.
    pub open spec fn script_filename_at(self) -> int {
        BODY_START as int
    }

    /// Where the script name starts when present.
    pub open spec fn script_name_at(self) -> int {
        self.script_filename_at() + slot_len(self.required.script_filename)
    }

    /// Where the query string starts when present.
    pub open spec fn query_string_at(self) -> int {
        self.script_name_at() + slot_len(self.required.script_name)
    }

    /// Where the request method starts when present.
    pub open spec fn request_method_at(self) -> int {
        self.query_string_at() + slot_len(self.required.query_string)
    }

    /// Length of the message before padding.
    pub open spec fn unpadded_len(self) -> nat {
        BODY_START as nat + self.required.len() + table_len(self.general)
    }

    /// Zero bytes appended at the end.
    pub open spec fn padding(self) -> nat {
        padding_for(self.unpadded_len())
    }

    /// Length of the whole message.
    pub open spec fn total_len(self) -> nat {
        self.unpadded_len() + self.padding()
    }

    /// Whether the message length fits the 32-bit length and offset fields.
    pub open spec fn fits_fields(self) -> bool {
        self.total_len() <= u32::MAX
    }

    /// Whether the message fits the 32-bit fields and can be held in memory.
    pub open spec fn fits(self) -> bool {
        self.fits_fields() && self.total_len() <= isize::MAX
    }

    /// The request header of the message.
    pub open spec fn request_header(self) -> RequestHeaderView {
        RequestHeaderView {
            http_header_length: 0,
            request_body_length: 0,
            script_filename_offset: offset_field(
                self.required.script_filename,
                self.script_filename_at(),
            ),
            script_name_offset: offset_field(self.required.script_name, self.script_name_at()),
            query_string_offset: offset_field(self.required.query_string, self.query_string_at()),
            request_method_offset: offset_field(
                self.required.request_method,
                self.request_method_at(),
            ),
            unknown_headers_count: 0,
            env_variables_count: (self.required.count() + self.general.len()) as u32,
            special_env_variables_count: 0,
        }
    }

    /// The packet header of the message.
    pub open spec fn packet_header(self) -> PacketHeaderView {
        PacketHeaderView {
            version_b0: 76,
            version_b1: 83,
            packet_type: PacketType::BeginRequest,
            endianness: self.endianness,
            packet_length: self.total_len() as u32,
        }
    }

    /// The message: packet header, request header, required variables,
    /// general table, padding.
    pub open spec fn bytes(self) -> Seq<u8> {
        self.packet_header().bytes() + self.request_header().bytes(self.endianness)
            + self.required.bytes(self.endianness) + encode_table(self.general, self.endianness)
            + zeros(self.padding())
    }
}

/// Builder of a begin-request message.
#[derive(Clone, Debug)]
pub struct Request<'a> {
    endianness: Endianness,
    required_env_variables: RequiredEnvVariables<'a>,
    general_env_variables: EnvVariables<'a>,
}

impl<'a> View for Request<'a> {
    type V = RequestView;

    closed spec fn view(&self) -> RequestView {
        RequestView {
            endianness: self.endianness,
            required: self.required_env_variables@,
            general: self.general_env_variables@,
        }
    }
}

impl<'a> Request<'a> {
    /// An empty request, written in the default byte order.
    pub fn new() -> (r: Self)
        ensures
            r@ == (RequestView {
                endianness: Endianness::BigEndian,
                required: RequiredView {
                    script_filename: None,
                    script_name: None,
                    query_string: None,
                    request_method: None,
                },
                general: Seq::empty(),
            }),
    {
        Request::with_endianness(Endianness::default())
    }

    /// An empty request, written in the given byte order.
    pub fn with_endianness(endianness: Endianness) -> (r: Self)
        ensures
            r@ == (RequestView {
                endianness,
                required: RequiredView {
                    script_filename: None,
                    script_name: None,
                    query_string: None,
                    request_method: None,
                },
                general: Seq::empty(),
            }),
    {
        Request {
            endianness,
            required_env_variables: RequiredEnvVariables::new(),
            general_env_variables: EnvVariables::default(),
        }
    }

    fn with_general(self, name: &'static str, value: &'a str) -> (r: Self)
        requires
            name.spec_bytes().len() <= MAX_TEXT_LEN,
            value.spec_bytes().len() <= MAX_TEXT_LEN,
        ensures
            r@ == (RequestView {
                general: self@.general.push(
                    EnvVariableView { name: name.spec_bytes(), value: value.spec_bytes() },
                ),
                ..self@
            }),
    {
        let mut request = self;
        request.general_env_variables.add(name, value);
        request
    }

    pub fn document_root(self, value: &'a str) -> (r: Self)
        requires
            value.spec_bytes().len() <= MAX_TEXT_LEN,
        ensures
            r@ == (RequestView {
                general: self@.general.push(
                    EnvVariableView { name: "DOCUMENT_ROOT".spec_bytes(), value: value.spec_bytes() },
                ),
                ..self@
            }),
    {
        proof {
            reveal_strlit("DOCUMENT_ROOT");
            lemma_name_fits("DOCUMENT_ROOT");
        }
        self.with_general("DOCUMENT_ROOT", value)
    }

    pub fn remote_addr(self, value: &'a str) -> (r: Self)
        requires
            value.spec_bytes().len() <= MAX_TEXT_LEN,
        ensures
            r@ == (RequestView {
                general: self@.general.push(
                    EnvVariableView { name: "REMOTE_ADDR".spec_bytes(), value: value.spec_bytes() },
                ),
                ..self@
            }),
    {
        proof {
            reveal_strlit("REMOTE_ADDR");
            lemma_name_fits("REMOTE_ADDR");
        }
        self.with_general("REMOTE_ADDR", value)
    }

    pub fn remote_port(self, value: &'a str) -> (r: Self)
        requires
            value.spec_bytes().len() <= MAX_TEXT_LEN,
        ensures
            r@ == (RequestView {
                general: self@.general.push(
                    EnvVariableView { name: "REMOTE_PORT".spec_bytes(), value: value.spec_bytes() },
                ),
                ..self@
            }),
    {
        proof {
            reveal_strlit("REMOTE_PORT");
            lemma_name_fits("REMOTE_PORT");
        }
        self.with_general("REMOTE_PORT", value)
    }

    pub fn server_addr(self, value: &'a str) -> (r: Self)
        requires
            value.spec_bytes().len() <= MAX_TEXT_LEN,
        ensures
            r@ == (RequestView {
                general: self@.general.push(
                    EnvVariableView { name: "SERVER_ADDR".spec_bytes(), value: value.spec_bytes() },
                ),
                ..self@
            }),
    {
        proof {
            reveal_strlit("SERVER_ADDR");
            lemma_name_fits("SERVER_ADDR");
        }
        self.with_general("SERVER_ADDR", value)
    }

    pub fn server_name(self, value: &'a str) -> (r: Self)
        requires
            value.spec_bytes().len() <= MAX_TEXT_LEN,
        ensures
            r@ == (RequestView {
                general: self@.general.push(
                    EnvVariableView { name: "SERVER_NAME".spec_bytes(), value: value.spec_bytes() },
                ),
                ..self@
            }),
    {
        proof {
            reveal_strlit("SERVER_NAME");
            lemma_name_fits("SERVER_NAME");
        }
        self.with_general("SERVER_NAME", value)
    }

    pub fn server_port(self, value: &'a str) -> (r: Self)
        requires
            value.spec_bytes().len() <= MAX_TEXT_LEN,
        ensures
            r@ == (RequestView {
                general: self@.general.push(
                    EnvVariableView { name: "SERVER_PORT".spec_bytes(), value: value.spec_bytes() },
                ),
                ..self@
            }),
    {
        proof {
            reveal_strlit("SERVER_PORT");
            lemma_name_fits("SERVER_PORT");
        }
        self.with_general("SERVER_PORT", value)
    }

    pub fn request_uri(self, value: &'a str) -> (r: Self)
        requires
            value.spec_bytes().len() <= MAX_TEXT_LEN,
        ensures
            r@ == (RequestView {
                general: self@.general.push(
                    EnvVariableView { name: "REQUEST_URI".spec_bytes(), value: value.spec_bytes() },
                ),
                ..self@
            }),
    {
        proof {
            reveal_strlit("REQUEST_URI");
            lemma_name_fits("REQUEST_URI");
        }
        self.with_general("REQUEST_URI", value)
    }

    pub fn path_info(self, value: &'a str) -> (r: Self)
        requires
            value.spec_bytes().len() <= MAX_TEXT_LEN,
        ensures
            r@ == (RequestView {
                general: self@.general.push(
                    EnvVariableView { name: "PATH_INFO".spec_bytes(), value: value.spec_bytes() },
                ),
                ..self@
            }),
    {
        proof {
            reveal_strlit("PATH_INFO");
            lemma_name_fits("PATH_INFO");
        }
        self.with_general("PATH_INFO", value)
    }

    pub fn path_translated(self, value: &'a str) -> (r: Self)
        requires
            value.spec_bytes().len() <= MAX_TEXT_LEN,
        ensures
            r@ == (RequestView {
                general: self@.general.push(
                    EnvVariableView { name: "PATH_TRANSLATED".spec_bytes(), value: value.spec_bytes() },
                ),
                ..self@
            }),
    {
        proof {
            reveal_strlit("PATH_TRANSLATED");
            lemma_name_fits("PATH_TRANSLATED");
        }
        self.with_general("PATH_TRANSLATED", value)
    }

    pub fn orig_path_info(self, value: &'a str) -> (r: Self)
        requires
            value.spec_bytes().len() <= MAX_TEXT_LEN,
        ensures
            r@ == (RequestView {
                general: self@.general.push(
                    EnvVariableView { name: "ORIG_PATH_INFO".spec_bytes(), value: value.spec_bytes() },
                ),
                ..self@
            }),
    {
        proof {
            reveal_strlit("ORIG_PATH_INFO");
            lemma_name_fits("ORIG_PATH_INFO");
        }
        self.with_general("ORIG_PATH_INFO", value)
    }

    pub fn redirect_status(self, value: &'a str) -> (r: Self)
        requires
            value.spec_bytes().len() <= MAX_TEXT_LEN,
        ensures
            r@ == (RequestView {
                general: self@.general.push(
                    EnvVariableView { name: "REDIRECT_STATUS".spec_bytes(), value: value.spec_bytes() },
                ),
                ..self@
            }),
    {
        proof {
            reveal_strlit("REDIRECT_STATUS");
            lemma_name_fits("REDIRECT_STATUS");
        }
        self.with_general("REDIRECT_STATUS", value)
    }

    pub fn redirect_url(self, value: &'a str) -> (r: Self)
        requires
            value.spec_bytes().len() <= MAX_TEXT_LEN,
        ensures
            r@ == (RequestView {
                general: self@.general.push(
                    EnvVariableView { name: "REDIRECT_URL".spec_bytes(), value: value.spec_bytes() },
                ),
                ..self@
            }),
    {
        proof {
            reveal_strlit("REDIRECT_URL");
            lemma_name_fits("REDIRECT_URL");
        }
        self.with_general("REDIRECT_URL", value)
    }

    pub fn redirect_query_string(self, value: &'a str) -> (r: Self)
        requires
            value.spec_bytes().len() <= MAX_TEXT_LEN,
        ensures
            r@ == (RequestView {
                general: self@.general.push(
                    EnvVariableView { name: "REDIRECT_QUERY_STRING".spec_bytes(), value: value.spec_bytes() },
                ),
                ..self@
            }),
    {
        proof {
            reveal_strlit("REDIRECT_QUERY_STRING");
            lemma_name_fits("REDIRECT_QUERY_STRING");
        }
        self.with_general("REDIRECT_QUERY_STRING", value)
    }

    pub fn script_filename(self, value: &'a str) -> (r: Self)
        requires
            value.spec_bytes().len() <= MAX_TEXT_LEN,
        ensures
            r@ == (RequestView {
                required: RequiredView {
                    script_filename: Some(
                        EnvVariableView { name: "SCRIPT_FILENAME".spec_bytes(), value: value.spec_bytes() },
                    ),
                    ..self@.required
                },
                ..self@
            }),
    {
        let mut request = self;
        request.required_env_variables.script_filename(value);
        request
    }

    pub fn script_name(self, value: &'a str) -> (r: Self)
        requires
            value.spec_bytes().len() <= MAX_TEXT_LEN,
        ensures
            r@ == (RequestView {
                required: RequiredView {
                    script_name: Some(
                        EnvVariableView { name: "SCRIPT_NAME".spec_bytes(), value: value.spec_bytes() },
                    ),
                    ..self@.required
                },
                ..self@
            }),
    {
        let mut request = self;
        request.required_env_variables.script_name(value);
        request
    }

    pub fn query_string(self, value: &'a str) -> (r: Self)
        requires
            value.spec_bytes().len() <= MAX_TEXT_LEN,
        ensures
            r@ == (RequestView {
                required: RequiredView {
                    query_string: Some(
                        EnvVariableView { name: "QUERY_STRING".spec_bytes(), value: value.spec_bytes() },
                    ),
                    ..self@.required
                },
                ..self@
            }),
    {
        let mut request = self;
        request.required_env_variables.query_string(value);
        request
    }

    pub fn request_method(self, value: &'a str) -> (r: Self)
        requires
            value.spec_bytes().len() <= MAX_TEXT_LEN,
        ensures
            r@ == (RequestView {
                required: RequiredView {
                    request_method: Some(
                        EnvVariableView { name: "REQUEST_METHOD".spec_bytes(), value: value.spec_bytes() },
                    ),
                    ..self@.required
                },
                ..self@
            }),
    {
        let mut request = self;
        request.required_env_variables.request_method(value);
        request
    }

    /// Whether the message length fits the 32-bit length and offset fields,
    /// and the message can be held in memory.
    pub fn fits(&self) -> (r: bool)
        ensures
            r == self@.fits(),
    {
        let limit: usize = (u32::MAX - 7) as usize - BODY_START - 4 - self.required_env_variables.len();
        let within = self.general_env_variables.fits_within(limit);
        proof {
            lemma_padding_bound(self@.unpadded_len());
        }
        if !within {
            return false;
        }
        self.len() <= isize::MAX as usize
    }

    /// Length of the whole message, padding included.
    pub fn len(&self) -> (r: usize)
        requires
            self@.fits_fields(),
        ensures
            r == self@.total_len(),
    {
        let length = BODY_START + self.required_env_variables.len() + self.general_env_variables.len()
            + 4;
        length + (8 - length % 8) % 8
    }

    /// The packet header that opens the message; its length field holds the
    /// length of the whole message.
    pub fn packet_header(&self) -> (r: PacketHeader)
        requires
            self@.fits(),
        ensures
            r@ == self@.packet_header(),
    {
        let length = self.len();
        let mut header = PacketHeader::begin_request(self.endianness);
        header.packet_length(length as u32);
        header
    }

    /// The request header of the message: each required variable's offset
    /// counted from the start of the message, and the number of variables.
    pub fn request_header(&self) -> (r: RequestHeader)
        requires
            self@.fits(),
        ensures
            r@ == self@.request_header(),
    {
        let mut header = RequestHeader::new();
        let mut offset: usize = BODY_START;
        if let Some(v) = self.required_env_variables.get_script_filename() {
            header.script_filename_offset(offset as u32);
            offset = offset + v.len();
        }
        if let Some(v) = self.required_env_variables.get_script_name() {
            header.script_name_offset(offset as u32);
            offset = offset + v.len();
        }
        if let Some(v) = self.required_env_variables.get_query_string() {
            header.query_string_offset(offset as u32);
            offset = offset + v.len();
        }
        if let Some(v) = self.required_env_variables.get_request_method() {
            header.request_method_offset(offset as u32);
        }
        proof {
            lemma_count_bound(self@);
        }
        let count = self.required_env_variables.count() + self.general_env_variables.count();
        header.env_variables_count(count as u32);
        header
    }

    /// The whole message.
    pub fn encode(&self) -> (r: Bytes)
        requires
            self@.fits(),
        ensures
            bytes_content(r) == self@.bytes(),
    {
        proof {
            lemma_parts_len(self@);
        }
        let length = self.len();
        let packet_header = self.packet_header();
        let request_header = self.request_header();
        let mut buf = buffer_with_capacity(length);
        packet_header.encode_into(&mut buf);
        request_header.encode_into(&mut buf, self.endianness);
        self.required_env_variables.encode_into(&mut buf, self.endianness);
        self.general_env_variables.encode_into(&mut buf, self.endianness);
        let unpadded = BODY_START + self.required_env_variables.len() + self.general_env_variables.len()
            + 4;
        buffer_put_zeros(&mut buf, (8 - unpadded % 8) % 8);
        assert(buffer_content(buf) =~= self@.bytes());
        buffer_freeze(buf)
    }

    pub fn into_bytes(self) -> (r: Bytes)
        requires
            self@.fits(),
        ensures
            bytes_content(r) == self@.bytes(),
    {
        self.encode()
    }
}

impl<'a> Default for Request<'a> {
    fn default() -> (r: Self)
        ensures
            r@ == (RequestView {
                endianness: Endianness::BigEndian,
                required: RequiredView {
                    script_filename: None,
                    script_name: None,
                    query_string: None,
                    request_method: None,
                },
                general: Seq::empty(),
            }),
    {
        Request::new()
    }
}

proof fn lemma_slot_len(v: Option<EnvVariableView>, e: Endianness)
    ensures
        slot_bytes(v, e).len() == slot_len(v),
{
    if let Some(v) = v {
        lemma_encode_var_len(v, e);
    }
}

proof fn lemma_request_header_len(h: RequestHeaderView, e: Endianness)
    ensures
        h.bytes(e).len() == 36,
{
    lemma_u32_round_trip(h.http_header_length, e);
    lemma_u32_round_trip(h.request_body_length, e);
    lemma_u32_round_trip(h.script_filename_offset, e);
    lemma_u32_round_trip(h.script_name_offset, e);
    lemma_u32_round_trip(h.query_string_offset, e);
    lemma_u32_round_trip(h.request_method_offset, e);
    lemma_u32_round_trip(h.unknown_headers_count, e);
    lemma_u32_round_trip(h.env_variables_count, e);
    lemma_u32_round_trip(h.special_env_variables_count, e);
}

/// The parts of a message have the sizes that the length computation adds up.
proof fn lemma_parts_len(m: RequestView)
    ensures
        m.packet_header().bytes().len() == 8,
        m.request_header().bytes(m.endianness).len() == 36,
        m.required.bytes(m.endianness).len() == m.required.len(),
        encode_table(m.general, m.endianness).len() == table_len(m.general),
        m.bytes().len() == m.total_len(),
{
    let e = m.endianness;
    lemma_packet_header_round_trip(m.packet_header());
    lemma_request_header_len(m.request_header(), e);
    lemma_slot_len(m.required.script_filename, e);
    lemma_slot_len(m.required.script_name, e);
    lemma_slot_len(m.required.query_string, e);
    lemma_slot_len(m.required.request_method, e);
    lemma_encode_vars_len(m.general, e);
}

/// Every assembled message is a whole number of 8-byte words.
pub proof fn lemma_request_aligned(m: RequestView)
    ensures
        m.bytes().len() % 8 == 0,
{
    lemma_parts_len(m);
    lemma_padding_bound(m.unpadded_len());
}

/// The length field of the packet header holds the length of the whole
/// message, and reading the header back from the message gives it.
pub proof fn lemma_packet_length(m: RequestView)
    requires
        m.fits_fields(),
    ensures
        m.packet_header().packet_length == m.bytes().len(),
        decode_packet_header(m.bytes()) == Ok::<PacketHeaderView, crate::errors::PacketHeaderError>(
            m.packet_header(),
        ),
{
    lemma_parts_len(m);
    let h = m.packet_header();
    let b = m.bytes();
    lemma_packet_header_round_trip(h);
    assert(b.subrange(0, 8) =~= h.bytes());
    assert(b.subrange(4, 8) =~= h.bytes().subrange(4, 8));
    assert(b[2] == h.bytes()[2]);
    assert(b[3] == h.bytes()[3]);
}

/// Each required variable's offset field is zero when it is absent; when it
/// is present it is the position, counted from the start of the message,
/// where its encoding stands.
pub proof fn lemma_required_offsets(m: RequestView)
    requires
        m.fits_fields(),
    ensures
        ({
            let h = m.request_header();
            let b = m.bytes();
            let e = m.endianness;
            &&& m.required.script_filename is None ==> h.script_filename_offset == 0
            &&& m.required.script_name is None ==> h.script_name_offset == 0
            &&& m.required.query_string is None ==> h.query_string_offset == 0
            &&& m.required.request_method is None ==> h.request_method_offset == 0
            &&& m.required.script_filename matches Some(v) ==> h.script_filename_offset
                == m.script_filename_at() && b.subrange(
                m.script_filename_at(),
                m.script_filename_at() + var_len(v),
            ) == encode_var(v, e)
            &&& m.required.script_name matches Some(v) ==> h.script_name_offset
                == m.script_name_at() && b.subrange(
                m.script_name_at(),
                m.script_name_at() + var_len(v),
            ) == encode_var(v, e)
            &&& m.required.query_string matches Some(v) ==> h.query_string_offset
                == m.query_string_at() && b.subrange(
                m.query_string_at(),
                m.query_string_at() + var_len(v),
            ) == encode_var(v, e)
            &&& m.required.request_method matches Some(v) ==> h.request_method_offset
                == m.request_method_at() && b.subrange(
                m.request_method_at(),
                m.request_method_at() + var_len(v),
            ) == encode_var(v, e)
        }),
{
    lemma_offset_fields(m);
    lemma_required_bytes(m);
}

proof fn lemma_offset_fields(m: RequestView)
    requires
        m.fits_fields(),
    ensures
        ({
            let h = m.request_header();
            &&& m.required.script_filename is None ==> h.script_filename_offset == 0
            &&& m.required.script_name is None ==> h.script_name_offset == 0
            &&& m.required.query_string is None ==> h.query_string_offset == 0
            &&& m.required.request_method is None ==> h.request_method_offset == 0
            &&& m.required.script_filename is Some ==> h.script_filename_offset
                == m.script_filename_at()
            &&& m.required.script_name is Some ==> h.script_name_offset == m.script_name_at()
            &&& m.required.query_string is Some ==> h.query_string_offset == m.query_string_at()
            &&& m.required.request_method is Some ==> h.request_method_offset
                == m.request_method_at()
        }),
{
    lemma_parts_len(m);
}

proof fn lemma_required_bytes(m: RequestView)
    ensures
        ({
            let b = m.bytes();
            let e = m.endianness;
            &&& b.subrange(m.script_filename_at(), m.script_name_at()) == slot_bytes(
                m.required.script_filename,
                e,
            )
            &&& b.subrange(m.script_name_at(), m.query_string_at()) == slot_bytes(
                m.required.script_name,
                e,
            )
            &&& b.subrange(m.query_string_at(), m.request_method_at()) == slot_bytes(
                m.required.query_string,
                e,
            )
            &&& b.subrange(
                m.request_method_at(),
                m.request_method_at() + slot_len(m.required.request_method),
            ) == slot_bytes(m.required.request_method, e)
        }),
{
    lemma_parts_len(m);
    let e = m.endianness;
    let b = m.bytes();
    let head = m.packet_header().bytes() + m.request_header().bytes(e);
    let s0 = slot_bytes(m.required.script_filename, e);
    let s1 = slot_bytes(m.required.script_name, e);
    let s2 = slot_bytes(m.required.query_string, e);
    let s3 = slot_bytes(m.required.request_method, e);
    let tail = encode_table(m.general, e) + zeros(m.padding());
    lemma_slot_len(m.required.script_filename, e);
    lemma_slot_len(m.required.script_name, e);
    lemma_slot_len(m.required.query_string, e);
    lemma_slot_len(m.required.request_method, e);
    assert(b == head + s0 + s1 + s2 + s3 + tail);
    lemma_regroup(head, s0, s1, s2, s3, tail);
    lemma_middle(head, s0, s1 + s2 + s3 + tail);
    lemma_middle(head + s0, s1, s2 + s3 + tail);
    lemma_middle(head + s0 + s1, s2, s3 + tail);
    lemma_middle(head + s0 + s1 + s2, s3, tail);
}

proof fn lemma_regroup(
    a: Seq<u8>,
    s0: Seq<u8>,
    s1: Seq<u8>,
    s2: Seq<u8>,
    s3: Seq<u8>,
    t: Seq<u8>,
)
    ensures
        a + s0 + s1 + s2 + s3 + t == a + s0 + (s1 + s2 + s3 + t),
        a + s0 + s1 + s2 + s3 + t == (a + s0) + s1 + (s2 + s3 + t),
        a + s0 + s1 + s2 + s3 + t == (a + s0 + s1) + s2 + (s3 + t),
        a + s0 + s1 + s2 + s3 + t == (a + s0 + s1 + s2) + s3 + t,
{
    assert(a + s0 + s1 + s2 + s3 + t =~= a + s0 + (s1 + s2 + s3 + t));
    assert(a + s0 + s1 + s2 + s3 + t =~= (a + s0) + s1 + (s2 + s3 + t));
    assert(a + s0 + s1 + s2 + s3 + t =~= (a + s0 + s1) + s2 + (s3 + t));
}

/// The middle part of a concatenation is found where the first part ends.
proof fn lemma_middle(a: Seq<u8>, x: Seq<u8>, c: Seq<u8>)
    ensures
        (a + x + c).subrange(a.len() as int, a.len() + x.len() as int) == x,
{
    assert((a + x + c).subrange(a.len() as int, a.len() + x.len() as int) =~= x);
}

/// Two requests that hold the same thing encode to the same bytes.
pub proof fn lemma_encoding_deterministic(a: &Request, b: &Request)
    requires
        a@ == b@,
    ensures
        a@.bytes() == b@.bytes(),
{
}

proof fn lemma_padding_bound(n: nat)
    ensures
        padding_for(n) <= 7,
        (n + padding_for(n)) % 8 == 0,
{
}

/// Every variable takes at least six bytes, so a message that fits has
/// fewer variables than `u32::MAX`.
proof fn lemma_count_bound(m: RequestView)
    requires
        m.fits_fields(),
    ensures
        m.required.count() + m.general.len() <= u32::MAX,
{
    lemma_vars_len_lower(m.general);
}

proof fn lemma_vars_len_lower(vs: Seq<EnvVariableView>)
    ensures
        crate::env_variables::vars_len(vs) >= 6 * vs.len(),
    decreases vs.len(),
{
    if vs.len() > 0 {
        lemma_vars_len_lower(vs.drop_last());
    }
}

} // verus!
