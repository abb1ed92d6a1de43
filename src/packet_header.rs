//! The fixed 8-byte record that frames every message.

use vstd::prelude::*;

use crate::errors::PacketHeaderError;
use bytes::{Bytes, BytesMut};

use crate::bindings::{
    buffer_content, buffer_freeze, buffer_put_u8, buffer_with_capacity, bytes_content, room,
};
use crate::wire::{lemma_u32_round_trip, put_u32, read_u32, u32_bytes, u32_from};

verus! {

/// Kind of a message.
#[derive(Clone, Copy, Debug, PartialEq, Eq, Structural)]
pub enum PacketType {
    BeginRequest,
    AbortRequest,
    ResponseHeader,
    ResponseStream,
    ResponseEnd,
    StderrStream,
    RequestReceived,
    ConnectionClose,
    InternalError,
}

/// The byte that stands for a packet type on the wire.
pub open spec fn packet_type_code(t: PacketType) -> u8 {
    match t {
        PacketType::BeginRequest => 1,
        PacketType::AbortRequest => 2,
        PacketType::ResponseHeader => 3,
        PacketType::ResponseStream => 4,
        PacketType::ResponseEnd => 5,
        PacketType::StderrStream => 6,
        PacketType::RequestReceived => 7,
        PacketType::ConnectionClose => 8,
        PacketType::InternalError => 9,
    }
}

/// The packet type that a byte stands for, if any.
pub open spec fn packet_type_of(b: u8) -> Result<PacketType, PacketHeaderError> {
    if b == 1 {
        Ok(PacketType::BeginRequest)
    } else if b == 2 {
        Ok(PacketType::AbortRequest)
    } else if b == 3 {
        Ok(PacketType::ResponseHeader)
    } else if b == 4 {
        Ok(PacketType::ResponseStream)
    } else if b == 5 {
        Ok(PacketType::ResponseEnd)
    } else if b == 6 {
        Ok(PacketType::StderrStream)
    } else if b == 7 {
        Ok(PacketType::RequestReceived)
    } else if b == 8 {
        Ok(PacketType::ConnectionClose)
    } else if b == 9 {
        Ok(PacketType::InternalError)
    } else {
        Err(PacketHeaderError::UnknownPacketType)
    }
}

impl TryFrom<u8> for PacketType {
    type Error = PacketHeaderError;

    fn try_from(value: u8) -> (r: Result<Self, PacketHeaderError>) {
        match value {
            1 => Ok(PacketType::BeginRequest),
            2 => Ok(PacketType::AbortRequest),
            3 => Ok(PacketType::ResponseHeader),
            4 => Ok(PacketType::ResponseStream),
            5 => Ok(PacketType::ResponseEnd),
            6 => Ok(PacketType::StderrStream),
            7 => Ok(PacketType::RequestReceived),
            8 => Ok(PacketType::ConnectionClose),
            9 => Ok(PacketType::InternalError),
            _ => Err(PacketHeaderError::UnknownPacketType),
        }
    }
}

impl vstd::std_specs::convert::TryFromSpecImpl<u8> for PacketType {
    open spec fn obeys_try_from_spec() -> bool {
        true
    }

    open spec fn try_from_spec(v: u8) -> Result<Self, PacketHeaderError> {
        packet_type_of(v)
    }
}

impl From<PacketType> for u8 {
    fn from(value: PacketType) -> (r: u8) {
        match value {
            PacketType::BeginRequest => 1,
            PacketType::AbortRequest => 2,
            PacketType::ResponseHeader => 3,
            PacketType::ResponseStream => 4,
            PacketType::ResponseEnd => 5,
            PacketType::StderrStream => 6,
            PacketType::RequestReceived => 7,
            PacketType::ConnectionClose => 8,
            PacketType::InternalError => 9,
        }
    }
}

impl vstd::std_specs::convert::FromSpecImpl<PacketType> for u8 {
    open spec fn obeys_from_spec() -> bool {
        true
    }

    open spec fn from_spec(v: PacketType) -> u8 {
        packet_type_code(v)
    }
}

/// Byte order of every multi-byte integer in a message.
#[derive(Clone, Copy, Debug, PartialEq, Eq, Structural)]
pub enum Endianness {
    LittleEndian,
    BigEndian,
}

/// The byte that stands for a byte order on the wire.
pub open spec fn endianness_code(e: Endianness) -> u8 {
    match e {
        Endianness::LittleEndian => 0,
        Endianness::BigEndian => 1,
    }
}

/// The byte order that a byte stands for, if any.
pub open spec fn endianness_of(b: u8) -> Result<Endianness, PacketHeaderError> {
    if b == 0 {
        Ok(Endianness::LittleEndian)
    } else if b == 1 {
        Ok(Endianness::BigEndian)
    } else {
        Err(PacketHeaderError::InvalidEndianness)
    }
}

impl TryFrom<u8> for Endianness {
    type Error = PacketHeaderError;

    fn try_from(value: u8) -> (r: Result<Self, PacketHeaderError>) {
        match value {
            0 => Ok(Endianness::LittleEndian),
            1 => Ok(Endianness::BigEndian),
            _ => Err(PacketHeaderError::InvalidEndianness),
        }
    }
}

impl vstd::std_specs::convert::TryFromSpecImpl<u8> for Endianness {
    open spec fn obeys_try_from_spec() -> bool {
        true
    }

    open spec fn try_from_spec(v: u8) -> Result<Self, PacketHeaderError> {
        endianness_of(v)
    }
}

impl From<Endianness> for u8 {
    fn from(value: Endianness) -> (r: u8) {
        match value {
            Endianness::LittleEndian => 0,
            Endianness::BigEndian => 1,
        }
    }
}

impl vstd::std_specs::convert::FromSpecImpl<Endianness> for u8 {
    open spec fn obeys_from_spec() -> bool {
        true
    }

    open spec fn from_spec(v: Endianness) -> u8 {
        endianness_code(v)
    }
}

impl Default for Endianness {
    /// Messages are written most significant byte first unless configured otherwise.
    fn default() -> (r: Endianness)
        ensures
            r == Endianness::BigEndian,
    {
        Endianness::BigEndian
    }
}

/// Size of a packet header on the wire.
pub const PACKET_HEADER_LEN: usize = 8;

/// What a packet header holds.
pub struct PacketHeaderView {
    pub version_b0: u8,
    pub version_b1: u8,
    pub packet_type: PacketType,
    pub endianness: Endianness,
    pub packet_length: u32,
}

impl PacketHeaderView {
    /// The eight bytes of the header: two version bytes, the type, the byte
    /// order, and the total message length in that byte order.
    pub open spec fn bytes(self) -> Seq<u8> {
        seq![
            self.version_b0,
            self.version_b1,
            packet_type_code(self.packet_type),
            endianness_code(self.endianness),
        ] + u32_bytes(self.packet_length, self.endianness)
    }
}

/// The bytes that open a message, read back; fails on a type or byte-order
/// byte that names nothing.
pub open spec fn decode_packet_header(b: Seq<u8>) -> Result<PacketHeaderView, PacketHeaderError>
    recommends
        b.len() >= 8,
{
    match packet_type_of(b[2]) {
        Err(err) => Err(err),
        Ok(packet_type) => match endianness_of(b[3]) {
            Err(err) => Err(err),
            Ok(endianness) => Ok(
                PacketHeaderView {
                    version_b0: b[0],
                    version_b1: b[1],
                    packet_type,
                    endianness,
                    packet_length: u32_from(b.subrange(4, 8), endianness),
                },
            ),
        },
    }
}

/// Framing record of a message: magic version bytes, packet type, byte order
/// and the total length of the message it opens.
#[derive(Clone, Copy, Debug)]
pub struct PacketHeader {
    version_b0: u8,
    version_b1: u8,
    packet_type: PacketType,
    endianness: Endianness,
    packet_length: u32,
}

impl View for PacketHeader {
    type V = PacketHeaderView;

    closed spec fn view(&self) -> PacketHeaderView {
        PacketHeaderView {
            version_b0: self.version_b0,
            version_b1: self.version_b1,
            packet_type: self.packet_type,
            endianness: self.endianness,
            packet_length: self.packet_length,
        }
    }
}

impl PacketHeader {
    pub fn new(
        version_b0: u8,
        version_b1: u8,
        packet_type: PacketType,
        endianness: Endianness,
        packet_length: u32,
    ) -> (r: Self)
        ensures
            r@ == (PacketHeaderView {
                version_b0,
                version_b1,
                packet_type,
                endianness,
                packet_length,
            }),
    {
        PacketHeader { version_b0, version_b1, packet_type, endianness, packet_length }
    }

    /// A begin-request header with the protocol's magic bytes `L`, `S`, written
    /// in the given byte order, whose length covers the header alone.
    pub fn begin_request(endianness: Endianness) -> (r: Self)
        ensures
            r@ == (PacketHeaderView {
                version_b0: 76,
                version_b1: 83,
                packet_type: PacketType::BeginRequest,
                endianness,
                packet_length: 8,
            }),
    {
        PacketHeader::new(76, 83, PacketType::BeginRequest, endianness, 8)
    }

    pub fn version_b0(&mut self, version: u8) -> (r: &Self)
        ensures
            final(self)@ == (PacketHeaderView { version_b0: version, ..old(self)@ }),
            *r == *final(self),
    {
        self.version_b0 = version;
        self
    }

    pub fn version_b1(&mut self, version: u8) -> (r: &Self)
        ensures
            final(self)@ == (PacketHeaderView { version_b1: version, ..old(self)@ }),
            *r == *final(self),
    {
        self.version_b1 = version;
        self
    }

    pub fn packet_type(&mut self, packet_type: PacketType) -> (r: &Self)
        ensures
            final(self)@ == (PacketHeaderView { packet_type, ..old(self)@ }),
            *r == *final(self),
    {
        self.packet_type = packet_type;
        self
    }

    pub fn endianness(&mut self, endianness: Endianness) -> (r: &Self)
        ensures
            final(self)@ == (PacketHeaderView { endianness, ..old(self)@ }),
            *r == *final(self),
    {
        self.endianness = endianness;
        self
    }

    pub fn packet_length(&mut self, packet_length: u32) -> (r: &Self)
        ensures
            final(self)@ == (PacketHeaderView { packet_length, ..old(self)@ }),
            *r == *final(self),
    {
        self.packet_length = packet_length;
        self
    }

    pub fn get_packet_type(&self) -> (r: PacketType)
        ensures
            r == self@.packet_type,
    {
        self.packet_type
    }

    pub fn get_endianness(&self) -> (r: Endianness)
        ensures
            r == self@.endianness,
    {
        self.endianness
    }

    pub fn get_packet_length(&self) -> (r: u32)
        ensures
            r == self@.packet_length,
    {
        self.packet_length
    }

    /// Size of the header on the wire.
    pub fn len(&self) -> (r: usize)
        ensures
            r == 8,
            r == self@.bytes().len(),
    {
        PACKET_HEADER_LEN
    }

    /// Appends the header's eight bytes.
    pub fn encode_into(&self, buf: &mut BytesMut)
        requires
            room(*old(buf), 8),
        ensures
            buffer_content(*final(buf)) == buffer_content(*old(buf)) + self@.bytes(),
    {
        let ghost start = buffer_content(*buf);
        buffer_put_u8(buf, self.version_b0);
        buffer_put_u8(buf, self.version_b1);
        buffer_put_u8(buf, u8::from(self.packet_type));
        buffer_put_u8(buf, u8::from(self.endianness));
        put_u32(buf, self.packet_length, self.endianness);
        assert(buffer_content(*buf) =~= start + self@.bytes());
    }

    /// The header's eight bytes.
    pub fn encode(&self) -> (r: Bytes)
        ensures
            bytes_content(r) == self@.bytes(),
    {
        let mut buf = buffer_with_capacity(PACKET_HEADER_LEN);
        self.encode_into(&mut buf);
        assert(buffer_content(buf) =~= self@.bytes());
        buffer_freeze(buf)
    }

    /// Reads a header from the first eight bytes of `bytes`.
    pub fn decode(bytes: &[u8]) -> (r: Result<PacketHeader, PacketHeaderError>)
        requires
            bytes@.len() >= 8,
        ensures
            r matches Ok(h) ==> decode_packet_header(bytes@) == Ok::<PacketHeaderView, PacketHeaderError>(h@),
            r matches Err(err) ==> decode_packet_header(bytes@) == Err::<PacketHeaderView, PacketHeaderError>(err),
    {
        let packet_type = PacketType::try_from(bytes[2])?;
        let endianness = Endianness::try_from(bytes[3])?;
        let packet_length = read_u32(bytes, 4, endianness);
        Ok(PacketHeader::new(bytes[0], bytes[1], packet_type, endianness, packet_length))
    }
}

impl Default for PacketHeader {
    fn default() -> (r: Self)
        ensures
            r@ == (PacketHeaderView {
                version_b0: 76,
                version_b1: 83,
                packet_type: PacketType::BeginRequest,
                endianness: Endianness::BigEndian,
                packet_length: 8,
            }),
    {
        PacketHeader::begin_request(Endianness::BigEndian)
    }
}

/// Reading back the bytes of a packet header gives the header.
pub proof fn lemma_packet_header_round_trip(h: PacketHeaderView)
    ensures
        h.bytes().len() == 8,
        decode_packet_header(h.bytes()) == Ok::<PacketHeaderView, PacketHeaderError>(h),
{
    lemma_u32_round_trip(h.packet_length, h.endianness);
    let b = h.bytes();
    assert(b.subrange(4, 8) =~= u32_bytes(h.packet_length, h.endianness));
    assert(b[2] == packet_type_code(h.packet_type));
    assert(b[3] == endianness_code(h.endianness));
}

} // verus!
