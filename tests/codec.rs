use litespeed_client::env_variables::EnvVariable;
use litespeed_client::env_variables::EnvVariables;
use litespeed_client::env_variables::RequiredEnvVariables;
use litespeed_client::errors::HttpHeaderError;
use litespeed_client::errors::PacketHeaderError;
use litespeed_client::http_headers::CommonHttpHeadersIndex;
use litespeed_client::http_headers::HttpHeader;
use litespeed_client::packet_header::Endianness;
use litespeed_client::packet_header::PacketHeader;
use litespeed_client::packet_header::PacketType;
use litespeed_client::request_header::RequestHeader;

#[test]
fn env_variable_encodes_lengths_with_terminators() {
    let v = EnvVariable::new("AB", "xyz");
    assert_eq!(v.len(), 11);
    assert_eq!(
        v.encode(Endianness::BigEndian),
        vec![0, 3, 0, 4, b'A', b'B', 0, b'x', b'y', b'z', 0]
    );
    assert_eq!(
        v.encode(Endianness::LittleEndian),
        vec![3, 0, 4, 0, b'A', b'B', 0, b'x', b'y', b'z', 0]
    );
}

#[test]
fn env_variable_into_bytes_holds_the_encoding() {
    let v = EnvVariable::new("REMOTE_ADDR", "127.0.0.1");
    let b = v.into_bytes(Endianness::BigEndian);
    assert_eq!(b.len(), 26);
    assert_eq!(&b[..4], &[0, 12, 0, 10]);
    assert_eq!(&b[4..15], b"REMOTE_ADDR");
    assert_eq!(b[15], 0);
    assert_eq!(&b[16..25], b"127.0.0.1");
    assert_eq!(b[25], 0);
}

#[test]
fn env_variable_round_trip() {
    for e in [Endianness::BigEndian, Endianness::LittleEndian] {
        for (name, value) in [("A", ""), ("SCRIPT_NAME", "/index.php"), ("", "x")] {
            let bytes = EnvVariable::new(name, value).encode(e);
            let (n, v, used) = EnvVariable::decode(&bytes, e).unwrap();
            assert_eq!(n, name.as_bytes());
            assert_eq!(v, value.as_bytes());
            assert_eq!(used, bytes.len());
        }
    }
}

#[test]
fn env_variable_round_trip_long_value() {
    let value = "v".repeat(65534);
    let bytes = EnvVariable::new("LONG", &value).encode(Endianness::BigEndian);
    assert_eq!(&bytes[2..4], &[0xff, 0xff]);
    let (n, v, used) = EnvVariable::decode(&bytes, Endianness::BigEndian).unwrap();
    assert_eq!(n, b"LONG");
    assert_eq!(v.len(), 65534);
    assert_eq!(used, 4 + 5 + 65535);
}

#[test]
fn env_variable_decode_rejects_bad_input() {
    assert_eq!(EnvVariable::decode(&[0, 1, 0], Endianness::BigEndian), None);
    // A zero length field is the table's end marker, not a variable.
    assert_eq!(EnvVariable::decode(&[0, 0, 0, 0], Endianness::BigEndian), None);
    // Missing terminator.
    assert_eq!(
        EnvVariable::decode(&[0, 2, 0, 1, b'A', b'B', 0], Endianness::BigEndian),
        None
    );
    // Too short for the lengths it declares.
    assert_eq!(EnvVariable::decode(&[0, 9, 0, 1, b'A', 0, 0], Endianness::BigEndian), None);
}

#[test]
fn env_variables_table_ends_with_four_zero_bytes() {
    let mut table = EnvVariables::new(2);
    assert_eq!(table.add("A", "1"), 0);
    assert_eq!(table.add("B", "22"), 1);
    assert_eq!(table.count(), 2);
    assert_eq!(table.len(), 8 + 9);
    assert_eq!(
        table.encode(Endianness::BigEndian),
        vec![0, 2, 0, 2, b'A', 0, b'1', 0, 0, 2, 0, 3, b'B', 0, b'2', b'2', 0, 0, 0, 0, 0]
    );
    assert_eq!(table.get(1).unwrap().len(), 9);
    assert!(table.get(2).is_none());
    let empty = EnvVariables::default();
    assert_eq!(empty.len(), 0);
    assert_eq!(empty.count(), 0);
    assert_eq!(&empty.into_bytes(Endianness::LittleEndian)[..], &[0, 0, 0, 0]);
}

#[test]
fn env_variables_fits_within() {
    let mut table = EnvVariables::new(0);
    table.add("A", "1");
    assert!(table.fits_within(8));
    assert!(!table.fits_within(7));
}

#[test]
fn required_variables_count_and_len() {
    let mut required = RequiredEnvVariables::new();
    assert_eq!(required.count(), 0);
    assert_eq!(required.len(), 0);
    required.script_name("/index.php");
    required.request_method("GET");
    assert_eq!(required.count(), 2);
    assert_eq!(required.len(), (11 + 10 + 6) + (14 + 3 + 6));
    assert!(required.get_script_filename().is_none());
    assert!(required.get_query_string().is_none());
    assert_eq!(required.get_script_name().unwrap().len(), 27);
    assert_eq!(required.get_request_method().unwrap().len(), 23);
}

#[test]
fn packet_type_codes() {
    assert_eq!(PacketType::try_from(1u8), Ok(PacketType::BeginRequest));
    assert_eq!(PacketType::try_from(9u8), Ok(PacketType::InternalError));
    assert_eq!(u8::from(PacketType::ResponseEnd), 5);
    assert_eq!(PacketType::try_from(0u8), Err(PacketHeaderError::UnknownPacketType));
}

#[test]
fn packet_type_eleven_is_unknown() {
    assert_eq!(PacketType::try_from(11u8), Err(PacketHeaderError::UnknownPacketType));
    let bytes = [b'L', b'S', 11, 1, 0, 0, 0, 8];
    assert_eq!(PacketHeader::decode(&bytes).err(), Some(PacketHeaderError::UnknownPacketType));
}

#[test]
fn endianness_codes() {
    assert_eq!(Endianness::try_from(0u8), Ok(Endianness::LittleEndian));
    assert_eq!(Endianness::try_from(1u8), Ok(Endianness::BigEndian));
    assert_eq!(Endianness::try_from(2u8), Err(PacketHeaderError::InvalidEndianness));
    assert_eq!(u8::from(Endianness::BigEndian), 1);
    let bytes = [b'L', b'S', 1, 7, 0, 0, 0, 8];
    assert_eq!(PacketHeader::decode(&bytes).err(), Some(PacketHeaderError::InvalidEndianness));
}

#[test]
fn packet_header_encode_and_decode() {
    let mut header = PacketHeader::default();
    assert_eq!(header.len(), 8);
    assert_eq!(header.encode(), vec![b'L', b'S', 1, 1, 0, 0, 0, 8]);
    header.packet_length(0x0102_0304);
    header.endianness(Endianness::LittleEndian);
    header.packet_type(PacketType::ResponseStream);
    assert_eq!(header.encode(), vec![b'L', b'S', 4, 0, 4, 3, 2, 1]);
    let back = PacketHeader::decode(&header.encode()).unwrap();
    assert_eq!(back.get_packet_length(), 0x0102_0304);
    assert_eq!(back.get_endianness(), Endianness::LittleEndian);
    assert_eq!(back.get_packet_type(), PacketType::ResponseStream);
}

#[test]
fn packet_header_version_bytes() {
    let mut header = PacketHeader::new(0, 0, PacketType::AbortRequest, Endianness::BigEndian, 16);
    header.version_b0(b'L');
    header.version_b1(b'S');
    assert_eq!(header.encode(), vec![b'L', b'S', 2, 1, 0, 0, 0, 16]);
}

#[test]
fn request_header_encodes_nine_fields() {
    let mut header = RequestHeader::new();
    assert_eq!(header.len(), 36);
    header.http_header_length(1);
    header.request_body_length(2);
    header.script_filename_offset(44);
    header.script_name_offset(0x0a0b);
    header.query_string_offset(5);
    header.request_method_offset(6);
    header.unknown_headers_count(7);
    header.env_variables_count(8);
    header.special_env_variables_count(9);
    assert_eq!(header.get_script_filename_offset(), 44);
    assert_eq!(header.get_script_name_offset(), 0x0a0b);
    assert_eq!(header.get_query_string_offset(), 5);
    assert_eq!(header.get_request_method_offset(), 6);
    assert_eq!(header.get_env_variables_count(), 8);
    let be = header.encode(Endianness::BigEndian);
    assert_eq!(be.len(), 36);
    assert_eq!(&be[0..4], &[0, 0, 0, 1]);
    assert_eq!(&be[8..16], &[0, 0, 0, 44, 0, 0, 0x0a, 0x0b]);
    assert_eq!(&be[32..36], &[0, 0, 0, 9]);
    let le = header.into_bytes(Endianness::LittleEndian);
    assert_eq!(&le[12..16], &[0x0b, 0x0a, 0, 0]);
}

#[test]
fn http_header_lookup() {
    assert_eq!(HttpHeader::try_from(0u8), Ok(HttpHeader::Accept));
    assert_eq!(HttpHeader::try_from(24u8), Ok(HttpHeader::TransferEncoding));
    assert_eq!(HttpHeader::try_from(25u8), Err(HttpHeaderError::UnknownHeader));
    assert_eq!(HttpHeader::try_from("user-agent"), Ok(HttpHeader::UserAgent));
    assert_eq!(HttpHeader::try_from("cookie2"), Ok(HttpHeader::Cookie2));
    assert_eq!(HttpHeader::try_from("User-Agent"), Err(HttpHeaderError::UnknownHeader));
    assert_eq!(HttpHeader::try_from("x-custom"), Err(HttpHeaderError::UnknownHeader));
    assert_eq!(u8::from(HttpHeader::Host), 10);
}

#[test]
fn common_headers_index_records_by_index() {
    let mut index = CommonHttpHeadersIndex::new();
    assert_eq!(index.header(HttpHeader::Host), (0, 0));
    index.set_header(HttpHeader::Host, 9, 120);
    assert_eq!(index.header(HttpHeader::Host), (9, 120));
    assert_eq!(index.header(HttpHeader::Accept), (0, 0));
}

#[test]
fn error_messages() {
    assert_eq!(PacketHeaderError::UnknownPacketType.message(), "The packet type provided is unknown.");
    assert_eq!(HttpHeaderError::UnknownHeader.message(), "The header provided is unknown.");
}
