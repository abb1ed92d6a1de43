use litespeed_client::params::Params;
use litespeed_client::text::decimal;
use litespeed_client::text::parse_usize;

#[test]
fn default_params_declare_the_gateway_interface() {
    let params = Params::default();
    assert_eq!(params.len(), 1);
    assert_eq!(params.get("GATEWAY_INTERFACE").unwrap().as_slice(), b"CGI/1.1");
}

#[test]
fn new_params_are_empty() {
    let params = Params::new();
    assert_eq!(params.len(), 0);
    assert!(params.get("GATEWAY_INTERFACE").is_none());
}

#[test]
fn setters_insert_or_overwrite() {
    let params = Params::default()
        .request_method("GET")
        .script_filename("/var/task/index.php")
        .script_name("/index.php")
        .request_method("POST")
        .gateway_interface("CGI/1.1");
    assert_eq!(params.len(), 4);
    assert_eq!(params.get("REQUEST_METHOD").unwrap().as_slice(), b"POST");
    assert_eq!(params.get("SCRIPT_NAME").unwrap().as_slice(), b"/index.php");
}

#[test]
fn numbers_become_decimal_text() {
    let params = Params::new()
        .remote_port(51000)
        .server_port(0)
        .content_length(1234567)
        .https(true);
    assert_eq!(params.get("REMOTE_PORT").unwrap().as_slice(), b"51000");
    assert_eq!(params.get("SERVER_PORT").unwrap().as_slice(), b"0");
    assert_eq!(params.get("CONTENT_LENGTH").unwrap().as_slice(), b"1234567");
    assert_eq!(params.get("HTTPS").unwrap().as_slice(), b"true");
    assert_eq!(Params::new().https(false).get("HTTPS").unwrap().as_slice(), b"false");
}

#[test]
fn all_well_known_setters() {
    let params = Params::new()
        .server_software("runtime")
        .server_protocol("HTTP/1.1")
        .query_string("a=1")
        .request_uri("/?a=1")
        .document_root("/var/task")
        .document_uri("/index.php")
        .remote_addr("127.0.0.1")
        .server_addr("127.0.0.1")
        .server_name("localhost")
        .content_type("text/plain")
        .path_info("/x")
        .path_translated("/var/task/x")
        .http_header("HTTP_HOST", "example.org");
    assert_eq!(params.len(), 13);
    assert_eq!(params.get("HTTP_HOST").unwrap().as_slice(), b"example.org");
    assert_eq!(params.get("SERVER_PROTOCOL").unwrap().as_slice(), b"HTTP/1.1");
}

#[test]
fn params_for_request() {
    let params = Params::for_request("GET", "/a?b=c", Some("b=c"), None, Some("42"));
    assert_eq!(params.len(), 6);
    assert_eq!(params.get("QUERY_STRING").unwrap().as_slice(), b"b=c");
    assert_eq!(params.get("CONTENT_TYPE").unwrap().as_slice(), b"");
    assert_eq!(params.get("CONTENT_LENGTH").unwrap().as_slice(), b"42");
    let odd = Params::for_request("POST", "/", None, Some("text/html"), Some("4x"));
    assert_eq!(odd.get("CONTENT_LENGTH").unwrap().as_slice(), b"0");
    assert_eq!(odd.get("QUERY_STRING").unwrap().as_slice(), b"");
}

#[test]
fn decimal_text() {
    assert_eq!(decimal(0), b"0".to_vec());
    assert_eq!(decimal(9), b"9".to_vec());
    assert_eq!(decimal(10), b"10".to_vec());
    assert_eq!(decimal(u64::MAX), u64::MAX.to_string().into_bytes());
}

#[test]
fn parse_decimal_text() {
    assert_eq!(parse_usize(b"0"), Some(0));
    assert_eq!(parse_usize(b"+17"), Some(17));
    assert_eq!(parse_usize(b"007"), Some(7));
    assert_eq!(parse_usize(b""), None);
    assert_eq!(parse_usize(b"+"), None);
    assert_eq!(parse_usize(b"-1"), None);
    assert_eq!(parse_usize(b"1 "), None);
    assert_eq!(parse_usize(usize::MAX.to_string().as_bytes()), Some(usize::MAX));
    assert_eq!(parse_usize(b"99999999999999999999999"), None);
}
