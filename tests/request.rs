use litespeed_client::packet_header::Endianness;
use litespeed_client::packet_header::PacketHeader;
use litespeed_client::request::Request;

fn u32_at(bytes: &[u8], at: usize) -> u32 {
    u32::from_be_bytes([bytes[at], bytes[at + 1], bytes[at + 2], bytes[at + 3]])
}

#[test]
fn one_general_variable_pads_to_eighty_bytes() {
    let request = Request::new().remote_addr("127.0.0.1");
    assert!(request.fits());
    assert_eq!(request.len(), 80);
    let bytes = request.encode();
    assert_eq!(bytes.len(), 80);
    let mut expected = vec![b'L', b'S', 1, 1, 0, 0, 0, 80];
    let mut request_header = vec![0u8; 36];
    request_header[31] = 1; // one variable
    expected.extend_from_slice(&request_header);
    expected.extend_from_slice(&[0, 12, 0, 10]);
    expected.extend_from_slice(b"REMOTE_ADDR\0127.0.0.1\0");
    expected.extend_from_slice(&[0, 0, 0, 0]);
    expected.extend_from_slice(&[0; 6]);
    assert_eq!(bytes, expected);
}

#[test]
fn empty_request_is_one_word_past_the_headers() {
    let request = Request::new();
    assert_eq!(request.len(), 48);
    let bytes = request.encode();
    assert_eq!(bytes.len(), 48);
    assert_eq!(&bytes[44..48], &[0, 0, 0, 0]);
    let header = request.request_header();
    assert_eq!(header.get_script_filename_offset(), 0);
    assert_eq!(header.get_script_name_offset(), 0);
    assert_eq!(header.get_query_string_offset(), 0);
    assert_eq!(header.get_request_method_offset(), 0);
    assert_eq!(header.get_env_variables_count(), 0);
}

#[test]
fn required_variable_offsets_point_at_their_encodings() {
    let request = Request::new()
        .request_method("GET")
        .script_filename("/var/task/index.php")
        .query_string("a=1")
        .script_name("/index.php")
        .document_root("/var/task");
    let bytes = request.encode();
    assert_eq!(bytes.len() % 8, 0);
    assert_eq!(u32_at(&bytes, 4) as usize, bytes.len());
    let header = request.request_header();
    let sf = header.get_script_filename_offset() as usize;
    let sn = header.get_script_name_offset() as usize;
    let qs = header.get_query_string_offset() as usize;
    let rm = header.get_request_method_offset() as usize;
    assert_eq!(sf, 44);
    assert_eq!(sn, 44 + 4 + 16 + 20);
    assert_eq!(qs, sn + 4 + 12 + 11);
    assert_eq!(rm, qs + 4 + 13 + 4);
    assert_eq!(&bytes[sf + 4..sf + 19], b"SCRIPT_FILENAME");
    assert_eq!(&bytes[sn + 4..sn + 15], b"SCRIPT_NAME");
    assert_eq!(&bytes[qs + 4..qs + 16], b"QUERY_STRING");
    assert_eq!(&bytes[rm + 4..rm + 18], b"REQUEST_METHOD");
    assert_eq!(u32_at(&bytes, 16) as usize, sf);
    assert_eq!(u32_at(&bytes, 36), 5);
    let general = rm + 4 + 15 + 4;
    assert_eq!(&bytes[general + 4..general + 17], b"DOCUMENT_ROOT");
}

#[test]
fn one_required_variable_leaves_other_offsets_zero() {
    let request = Request::new().query_string("x=y").server_port("8080");
    let header = request.request_header();
    assert_eq!(header.get_script_filename_offset(), 0);
    assert_eq!(header.get_script_name_offset(), 0);
    assert_eq!(header.get_query_string_offset(), 44);
    assert_eq!(header.get_request_method_offset(), 0);
    assert_eq!(header.get_env_variables_count(), 2);
    let bytes = request.encode();
    assert_eq!(&bytes[48..60], b"QUERY_STRING");
}

#[test]
fn packet_length_matches_the_message() {
    let request = Request::new()
        .server_name("localhost")
        .server_addr("10.0.0.1")
        .remote_port("51000")
        .request_uri("/hello?x=1")
        .path_info("/hello")
        .path_translated("/var/task/hello")
        .orig_path_info("/hello")
        .redirect_status("200")
        .redirect_url("/hello")
        .redirect_query_string("x=1");
    let bytes = request.encode();
    assert_eq!(request.packet_header().get_packet_length() as usize, bytes.len());
    let header = PacketHeader::decode(&bytes).unwrap();
    assert_eq!(header.get_packet_length() as usize, bytes.len());
    assert_eq!(bytes.len() % 8, 0);
    assert_eq!(request.request_header().get_env_variables_count(), 10);
}

#[test]
fn little_endian_request() {
    let request = Request::with_endianness(Endianness::LittleEndian).request_method("GET");
    let bytes = request.encode();
    assert_eq!(bytes[3], 0);
    assert_eq!(bytes.len(), 72);
    assert_eq!(&bytes[4..8], &[72, 0, 0, 0]);
    assert_eq!(&bytes[28..32], &[44, 0, 0, 0]);
    assert_eq!(&bytes[44..48], &[15, 0, 4, 0]);
}

#[test]
fn encoding_twice_gives_the_same_bytes() {
    let request = Request::new().script_name("/a.php").remote_addr("::1");
    let first = request.encode();
    let second = request.encode();
    assert_eq!(first, second);
    let bytes = Request::new().script_name("/a.php").remote_addr("::1").into_bytes();
    assert_eq!(&bytes[..], &first[..]);
}
