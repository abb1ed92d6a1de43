//! Records of the FastCGI protocol.

use vstd::prelude::*;

verus! {

/// The role a FastCGI application plays for a request.
#[derive(Clone, Copy, Debug, PartialEq, Eq, Structural)]
pub enum Role {
    Responder,
    Authorizer,
    Filter,
}

impl Role {
    /// The role's number on the wire.
    pub fn code(&self) -> (r: u16)
        ensures
            r == match *self {
                Role::Responder => 1u16,
                Role::Authorizer => 2,
                Role::Filter => 3,
            },
    {
        match self {
            Role::Responder => 1,
            Role::Authorizer => 2,
            Role::Filter => 3,
        }
    }
}

/// The type of a FastCGI record.
#[derive(Clone, Copy, Debug, PartialEq, Eq, Structural)]
pub enum RequestType {
    BeginRequest,
    AbortRequest,
    EndRequest,
    Params,
    Stdin,
    Stdout,
    Stderr,
    Data,
    GetValues,
    GetValuesResult,
}

impl RequestType {
    /// The record type's number on the wire.
    pub fn code(&self) -> (r: u8)
        ensures
            r == match *self {
                RequestType::BeginRequest => 1u8,
                RequestType::AbortRequest => 2,
                RequestType::EndRequest => 3,
                RequestType::Params => 4,
                RequestType::Stdin => 5,
                RequestType::Stdout => 6,
                RequestType::Stderr => 7,
                RequestType::Data => 8,
                RequestType::GetValues => 9,
                RequestType::GetValuesResult => 10,
            },
    {
        match self {
            RequestType::BeginRequest => 1,
            RequestType::AbortRequest => 2,
            RequestType::EndRequest => 3,
            RequestType::Params => 4,
            RequestType::Stdin => 5,
            RequestType::Stdout => 6,
            RequestType::Stderr => 7,
            RequestType::Data => 8,
            RequestType::GetValues => 9,
            RequestType::GetValuesResult => 10,
        }
    }
}

/// How the application ended a request.
#[derive(Clone, Copy, Debug, PartialEq, Eq, Structural)]
pub enum ProtocolStatus {
    RequestComplete,
    CantMultiplexConnection,
    Overloaded,
    UnknownRole,
}

impl ProtocolStatus {
    /// The status's number on the wire.
    pub fn code(&self) -> (r: u8)
        ensures
            r == match *self {
                ProtocolStatus::RequestComplete => 0u8,
                ProtocolStatus::CantMultiplexConnection => 1,
                ProtocolStatus::Overloaded => 2,
                ProtocolStatus::UnknownRole => 3,
            },
    {
        match self {
            ProtocolStatus::RequestComplete => 0,
            ProtocolStatus::CantMultiplexConnection => 1,
            ProtocolStatus::Overloaded => 2,
            ProtocolStatus::UnknownRole => 3,
        }
    }
}

/// The header that opens every FastCGI record; `reserved` is zero.
#[derive(Clone, Copy, Debug, PartialEq, Eq, Structural)]
pub struct Header {
    pub version: u8,
    pub record_type: u8,
    pub request_id: u16,
    pub content_length: u16,
    pub padding_length: u8,
    pub reserved: u8,
}

/// Body of a begin-request record; the reserved bytes are zero.
#[derive(Clone, Copy, Debug, PartialEq, Eq)]
pub struct BeginRequest {
    pub role: u16,
    pub flags: u8,
    pub reserved: [u8; 5],
}

#[derive(Clone, Copy, Debug, PartialEq, Eq)]
pub struct BeginRequestRecord {
    pub header: Header,
    pub body: BeginRequest,
}

/// Body of an end-request record; the reserved bytes are zero.
#[derive(Clone, Copy, Debug, PartialEq, Eq)]
pub struct EndRequest {
    pub app_status: u32,
    pub protocol_status: u8,
    pub reserved: [u8; 3],
}

#[derive(Clone, Copy, Debug, PartialEq, Eq)]
pub struct EndRequestRecord {
    pub header: Header,
    pub body: EndRequest,
}

} // verus!
