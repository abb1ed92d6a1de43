//! The common HTTP request headers, which the protocol identifies by index,
//! and the index table that locates them in a message.

use vstd::prelude::*;
use vstd::string::StringSliceAdditionalSpecFns;

use crate::errors::HttpHeaderError;

verus! {

/// Number of common HTTP headers.
pub const HTTP_HEADER_COUNT: usize = 25;

/// A common HTTP request header.
#[derive(Clone, Copy, Debug, PartialEq, Eq, Structural)]
pub enum HttpHeader {
    Accept,
    AcceptCharset,
    AcceptEncoding,
    AcceptLanguage,
    Authorization,
    Connection,
    ContentType,
    ContentLength,
    Cookie,
    Cookie2,
    Host,
    Pragma,
    Referer,
    UserAgent,
    CacheControl,
    IfModifiedSince,
    IfMatch,
    IfNoneMatch,
    IfRange,
    IfUnmodifiedSince,
    KeepAlive,
    Range,
    XForwardedFor,
    Via,
    TransferEncoding,
}

/// The index of a header in the protocol's table.
pub open spec fn header_index(h: HttpHeader) -> u8 {
    match h {
        HttpHeader::Accept => 0,
        HttpHeader::AcceptCharset => 1,
        HttpHeader::AcceptEncoding => 2,
        HttpHeader::AcceptLanguage => 3,
        HttpHeader::Authorization => 4,
        HttpHeader::Connection => 5,
        HttpHeader::ContentType => 6,
        HttpHeader::ContentLength => 7,
        HttpHeader::Cookie => 8,
        HttpHeader::Cookie2 => 9,
        HttpHeader::Host => 10,
        HttpHeader::Pragma => 11,
        HttpHeader::Referer => 12,
        HttpHeader::UserAgent => 13,
        HttpHeader::CacheControl => 14,
        HttpHeader::IfModifiedSince => 15,
        HttpHeader::IfMatch => 16,
        HttpHeader::IfNoneMatch => 17,
        HttpHeader::IfRange => 18,
        HttpHeader::IfUnmodifiedSince => 19,
        HttpHeader::KeepAlive => 20,
        HttpHeader::Range => 21,
        HttpHeader::XForwardedFor => 22,
        HttpHeader::Via => 23,
        HttpHeader::TransferEncoding => 24,
    }
}

/// The header at an index of the protocol's table, if any.
pub open spec fn header_at(i: u8) -> Result<HttpHeader, HttpHeaderError> {
    if i == 0 {
        Ok(HttpHeader::Accept)
    } else if i == 1 {
        Ok(HttpHeader::AcceptCharset)
    } else if i == 2 {
        Ok(HttpHeader::AcceptEncoding)
    } else if i == 3 {
        Ok(HttpHeader::AcceptLanguage)
    } else if i == 4 {
        Ok(HttpHeader::Authorization)
    } else if i == 5 {
        Ok(HttpHeader::Connection)
    } else if i == 6 {
        Ok(HttpHeader::ContentType)
    } else if i == 7 {
        Ok(HttpHeader::ContentLength)
    } else if i == 8 {
        Ok(HttpHeader::Cookie)
    } else if i == 9 {
        Ok(HttpHeader::Cookie2)
    } else if i == 10 {
        Ok(HttpHeader::Host)
    } else if i == 11 {
        Ok(HttpHeader::Pragma)
    } else if i == 12 {
        Ok(HttpHeader::Referer)
    } else if i == 13 {
        Ok(HttpHeader::UserAgent)
    } else if i == 14 {
        Ok(HttpHeader::CacheControl)
    } else if i == 15 {
        Ok(HttpHeader::IfModifiedSince)
    } else if i == 16 {
        Ok(HttpHeader::IfMatch)
    } else if i == 17 {
        Ok(HttpHeader::IfNoneMatch)
    } else if i == 18 {
        Ok(HttpHeader::IfRange)
    } else if i == 19 {
        Ok(HttpHeader::IfUnmodifiedSince)
    } else if i == 20 {
        Ok(HttpHeader::KeepAlive)
    } else if i == 21 {
        Ok(HttpHeader::Range)
    } else if i == 22 {
        Ok(HttpHeader::XForwardedFor)
    } else if i == 23 {
        Ok(HttpHeader::Via)
    } else if i == 24 {
        Ok(HttpHeader::TransferEncoding)
    } else {
        Err(HttpHeaderError::UnknownHeader)
    }
}

/// The header whose lower-case name is spelled by the bytes `b`, if any.
pub open spec fn header_named(b: Seq<u8>) -> Result<HttpHeader, HttpHeaderError> {
    if b == "accept".spec_bytes() {
        Ok(HttpHeader::Accept)
    } else if b == "accept-charset".spec_bytes() {
        Ok(HttpHeader::AcceptCharset)
    } else if b == "accept-encoding".spec_bytes() {
        Ok(HttpHeader::AcceptEncoding)
    } else if b == "accept-language".spec_bytes() {
        Ok(HttpHeader::AcceptLanguage)
    } else if b == "authorization".spec_bytes() {
        Ok(HttpHeader::Authorization)
    } else if b == "connection".spec_bytes() {
        Ok(HttpHeader::Connection)
    } else if b == "content-type".spec_bytes() {
        Ok(HttpHeader::ContentType)
    } else if b == "content-length".spec_bytes() {
        Ok(HttpHeader::ContentLength)
    } else if b == "cookie".spec_bytes() {
        Ok(HttpHeader::Cookie)
    } else if b == "cookie2".spec_bytes() {
        Ok(HttpHeader::Cookie2)
    } else if b == "host".spec_bytes() {
        Ok(HttpHeader::Host)
    } else if b == "pragma".spec_bytes() {
        Ok(HttpHeader::Pragma)
    } else if b == "referer".spec_bytes() {
        Ok(HttpHeader::Referer)
    } else if b == "user-agent".spec_bytes() {
        Ok(HttpHeader::UserAgent)
    } else if b == "cache-control".spec_bytes() {
        Ok(HttpHeader::CacheControl)
    } else if b == "if-modified-since".spec_bytes() {
        Ok(HttpHeader::IfModifiedSince)
    } else if b == "if-match".spec_bytes() {
        Ok(HttpHeader::IfMatch)
    } else if b == "if-none-match".spec_bytes() {
        Ok(HttpHeader::IfNoneMatch)
    } else if b == "if-range".spec_bytes() {
        Ok(HttpHeader::IfRange)
    } else if b == "if-unmodified-since".spec_bytes() {
        Ok(HttpHeader::IfUnmodifiedSince)
    } else if b == "keep-alive".spec_bytes() {
        Ok(HttpHeader::KeepAlive)
    } else if b == "range".spec_bytes() {
        Ok(HttpHeader::Range)
    } else if b == "x-forwarded-for".spec_bytes() {
        Ok(HttpHeader::XForwardedFor)
    } else if b == "via".spec_bytes() {
        Ok(HttpHeader::Via)
    } else if b == "transfer-encoding".spec_bytes() {
        Ok(HttpHeader::TransferEncoding)
    } else {
        Err(HttpHeaderError::UnknownHeader)
    }
}

impl TryFrom<u8> for HttpHeader {
    type Error = HttpHeaderError;

    fn try_from(value: u8) -> (r: Result<Self, HttpHeaderError>) {
        match value {
            0 => Ok(HttpHeader::Accept),
            1 => Ok(HttpHeader::AcceptCharset),
            2 => Ok(HttpHeader::AcceptEncoding),
            3 => Ok(HttpHeader::AcceptLanguage),
            4 => Ok(HttpHeader::Authorization),
            5 => Ok(HttpHeader::Connection),
            6 => Ok(HttpHeader::ContentType),
            7 => Ok(HttpHeader::ContentLength),
            8 => Ok(HttpHeader::Cookie),
            9 => Ok(HttpHeader::Cookie2),
            10 => Ok(HttpHeader::Host),
            11 => Ok(HttpHeader::Pragma),
            12 => Ok(HttpHeader::Referer),
            13 => Ok(HttpHeader::UserAgent),
            14 => Ok(HttpHeader::CacheControl),
            15 => Ok(HttpHeader::IfModifiedSince),
            16 => Ok(HttpHeader::IfMatch),
            17 => Ok(HttpHeader::IfNoneMatch),
            18 => Ok(HttpHeader::IfRange),
            19 => Ok(HttpHeader::IfUnmodifiedSince),
            20 => Ok(HttpHeader::KeepAlive),
            21 => Ok(HttpHeader::Range),
            22 => Ok(HttpHeader::XForwardedFor),
            23 => Ok(HttpHeader::Via),
            24 => Ok(HttpHeader::TransferEncoding),
            _ => Err(HttpHeaderError::UnknownHeader),
        }
    }
}

impl vstd::std_specs::convert::TryFromSpecImpl<u8> for HttpHeader {
    open spec fn obeys_try_from_spec() -> bool {
        true
    }

    open spec fn try_from_spec(v: u8) -> Result<Self, HttpHeaderError> {
        header_at(v)
    }
}

impl<'a> TryFrom<&'a str> for HttpHeader {
    type Error = HttpHeaderError;

    /// Looks a header up by its lower-case name.
    fn try_from(value: &'a str) -> (r: Result<Self, HttpHeaderError>) {
        let b = value.as_bytes();
        if same_bytes(b, "accept".as_bytes()) {
            Ok(HttpHeader::Accept)
        } else if same_bytes(b, "accept-charset".as_bytes()) {
            Ok(HttpHeader::AcceptCharset)
        } else if same_bytes(b, "accept-encoding".as_bytes()) {
            Ok(HttpHeader::AcceptEncoding)
        } else if same_bytes(b, "accept-language".as_bytes()) {
            Ok(HttpHeader::AcceptLanguage)
        } else if same_bytes(b, "authorization".as_bytes()) {
            Ok(HttpHeader::Authorization)
        } else if same_bytes(b, "connection".as_bytes()) {
            Ok(HttpHeader::Connection)
        } else if same_bytes(b, "content-type".as_bytes()) {
            Ok(HttpHeader::ContentType)
        } else if same_bytes(b, "content-length".as_bytes()) {
            Ok(HttpHeader::ContentLength)
        } else if same_bytes(b, "cookie".as_bytes()) {
            Ok(HttpHeader::Cookie)
        } else if same_bytes(b, "cookie2".as_bytes()) {
            Ok(HttpHeader::Cookie2)
        } else if same_bytes(b, "host".as_bytes()) {
            Ok(HttpHeader::Host)
        } else if same_bytes(b, "pragma".as_bytes()) {
            Ok(HttpHeader::Pragma)
        } else if same_bytes(b, "referer".as_bytes()) {
            Ok(HttpHeader::Referer)
        } else if same_bytes(b, "user-agent".as_bytes()) {
            Ok(HttpHeader::UserAgent)
        } else if same_bytes(b, "cache-control".as_bytes()) {
            Ok(HttpHeader::CacheControl)
        } else if same_bytes(b, "if-modified-since".as_bytes()) {
            Ok(HttpHeader::IfModifiedSince)
        } else if same_bytes(b, "if-match".as_bytes()) {
            Ok(HttpHeader::IfMatch)
        } else if same_bytes(b, "if-none-match".as_bytes()) {
            Ok(HttpHeader::IfNoneMatch)
        } else if same_bytes(b, "if-range".as_bytes()) {
            Ok(HttpHeader::IfRange)
        } else if same_bytes(b, "if-unmodified-since".as_bytes()) {
            Ok(HttpHeader::IfUnmodifiedSince)
        } else if same_bytes(b, "keep-alive".as_bytes()) {
            Ok(HttpHeader::KeepAlive)
        } else if same_bytes(b, "range".as_bytes()) {
            Ok(HttpHeader::Range)
        } else if same_bytes(b, "x-forwarded-for".as_bytes()) {
            Ok(HttpHeader::XForwardedFor)
        } else if same_bytes(b, "via".as_bytes()) {
            Ok(HttpHeader::Via)
        } else if same_bytes(b, "transfer-encoding".as_bytes()) {
            Ok(HttpHeader::TransferEncoding)
        } else {
            Err(HttpHeaderError::UnknownHeader)
        }
    }
}

impl<'a> vstd::std_specs::convert::TryFromSpecImpl<&'a str> for HttpHeader {
    open spec fn obeys_try_from_spec() -> bool {
        true
    }

    open spec fn try_from_spec(v: &'a str) -> Result<Self, HttpHeaderError> {
        header_named(v.spec_bytes())
    }
}

impl From<HttpHeader> for u8 {
    fn from(value: HttpHeader) -> (r: u8) {
        match value {
            HttpHeader::Accept => 0,
            HttpHeader::AcceptCharset => 1,
            HttpHeader::AcceptEncoding => 2,
            HttpHeader::AcceptLanguage => 3,
            HttpHeader::Authorization => 4,
            HttpHeader::Connection => 5,
            HttpHeader::ContentType => 6,
            HttpHeader::ContentLength => 7,
            HttpHeader::Cookie => 8,
            HttpHeader::Cookie2 => 9,
            HttpHeader::Host => 10,
            HttpHeader::Pragma => 11,
            HttpHeader::Referer => 12,
            HttpHeader::UserAgent => 13,
            HttpHeader::CacheControl => 14,
            HttpHeader::IfModifiedSince => 15,
            HttpHeader::IfMatch => 16,
            HttpHeader::IfNoneMatch => 17,
            HttpHeader::IfRange => 18,
            HttpHeader::IfUnmodifiedSince => 19,
            HttpHeader::KeepAlive => 20,
            HttpHeader::Range => 21,
            HttpHeader::XForwardedFor => 22,
            HttpHeader::Via => 23,
            HttpHeader::TransferEncoding => 24,
        }
    }
}

impl vstd::std_specs::convert::FromSpecImpl<HttpHeader> for u8 {
    open spec fn obeys_from_spec() -> bool {
        true
    }

    open spec fn from_spec(v: HttpHeader) -> u8 {
        header_index(v)
    }
}

/// Whether two byte strings are equal.
pub fn same_bytes(a: &[u8], b: &[u8]) -> (r: bool)
    ensures
        r == (a@ == b@),
{
    if a.len() != b.len() {
        return false;
    }
    let mut i: usize = 0;
    while i < a.len()
        invariant
            i <= a@.len(),
            a@.len() == b@.len(),
            a@.subrange(0, i as int) == b@.subrange(0, i as int),
        decreases a@.len() - i,
    {
        if a[i] != b[i] {
            assert(a@[i as int] != b@[i as int]);
            return false;
        }
        i = i + 1;
        assert(a@.subrange(0, i as int) =~= a@.subrange(0, i - 1).push(a@[i - 1]));
        assert(b@.subrange(0, i as int) =~= b@.subrange(0, i - 1).push(b@[i - 1]));
    }
    assert(a@ =~= a@.subrange(0, i as int));
    assert(b@ =~= b@.subrange(0, i as int));
    true
}

/// Lengths and offsets of the common headers of a request, by index.
pub struct CommonHttpHeadersIndex {
    header_length: [u16; 25],
    header_offset: [u32; 25],
}

impl CommonHttpHeadersIndex {
    /// Length of each header, by index.
    pub closed spec fn lengths(&self) -> Seq<u16> {
        self.header_length@
    }

    /// Offset of each header, by index.
    pub closed spec fn offsets(&self) -> Seq<u32> {
        self.header_offset@
    }

    /// A table in which no header is present.
    pub fn new() -> (r: Self)
        ensures
            r.lengths() == Seq::new(25, |i: int| 0u16),
            r.offsets() == Seq::new(25, |i: int| 0u32),
    {
        let r = CommonHttpHeadersIndex { header_length: [0u16; 25], header_offset: [0u32; 25] };
        assert(r.lengths() =~= Seq::new(25, |i: int| 0u16));
        assert(r.offsets() =~= Seq::new(25, |i: int| 0u32));
        r
    }

    /// Records where a header stands and how long it is.
    pub fn set_header(&mut self, name: HttpHeader, length: u16, offset: u32)
        ensures
            old(self).lengths().len() == 25,
            old(self).offsets().len() == 25,
            final(self).lengths() == old(self).lengths().update(header_index(name) as int, length),
            final(self).offsets() == old(self).offsets().update(header_index(name) as int, offset),
    {
        let index = u8::from(name) as usize;
        self.header_length[index] = length;
        self.header_offset[index] = offset;
    }

    /// The length and the offset recorded for a header.
    pub fn header(&self, name: HttpHeader) -> (r: (u16, u32))
        ensures
            self.lengths().len() == 25,
            self.offsets().len() == 25,
            r.0 == self.lengths()[header_index(name) as int],
            r.1 == self.offsets()[header_index(name) as int],
    {
        let index = u8::from(name) as usize;
        (self.header_length[index], self.header_offset[index])
    }
}

/// Where the name and the value of a header outside the common set stand
/// in a message.
#[derive(Clone, Copy, Debug, PartialEq, Eq, Structural)]
pub struct UnknownHttpHeader {
    pub name_offset: u32,
    pub name_length: u32,
    pub value_offset: u32,
    pub value_length: u32,
}

} // verus!
