//! Errors of the codec.

use vstd::prelude::*;

verus! {

/// A packet header byte that names no packet type or no byte order.
#[derive(Clone, Copy, Debug, PartialEq, Eq, Structural)]
pub enum PacketHeaderError {
    UnknownPacketType,
    InvalidEndianness,
}

impl PacketHeaderError {
    /// A sentence that describes the error.
    pub fn message(&self) -> &'static str {
        match self {
            PacketHeaderError::UnknownPacketType => "The packet type provided is unknown.",
            PacketHeaderError::InvalidEndianness => "The value provided does not represent an endian.",
        }
    }
}

/// A header index or name that is not one of the common HTTP headers.
#[derive(Clone, Copy, Debug, PartialEq, Eq, Structural)]
pub enum HttpHeaderError {
    UnknownHeader,
}

impl HttpHeaderError {
    /// A sentence that describes the error.
    pub fn message(&self) -> &'static str {
        match self {
            HttpHeaderError::UnknownHeader => "The header provided is unknown.",
        }
    }
}

} // verus!
