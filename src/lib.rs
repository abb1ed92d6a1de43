//! Client side of the LiteSpeed SAPI protocol and of FastCGI parameters:
//! wire encoding of packet headers, request headers and environment-variable
//! tables, request assembly, and the decisions of the connection lifecycle.

pub mod access;
pub mod bindings;
pub mod context;
pub mod env_variables;
pub mod errors;
pub mod http_headers;
pub mod packet_header;
pub mod params;
pub mod protocol;
pub mod request;
pub mod request_header;
pub mod session;
pub mod text;
pub mod wire;

pub use context::RuntimeContext;
pub use env_variables::{EnvVariable, EnvVariables, RequiredEnvVariables};
pub use errors::{HttpHeaderError, PacketHeaderError};
pub use http_headers::{CommonHttpHeadersIndex, HttpHeader, UnknownHttpHeader};
pub use packet_header::{Endianness, PacketHeader, PacketType};
pub use params::Params;
pub use request::Request;
pub use request_header::RequestHeader;
