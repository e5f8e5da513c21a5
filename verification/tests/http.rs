use biiot::http::body::{HttpBody, MultipartForm, UrlEncodedForm};
use biiot::http::header::HttpHeader;
use biiot::http::request::{HttpRequest, RawRequest};
use biiot::http::status::{code_as_str_name, HttpStatus, HttpStatusCode};

#[test]
fn body_holds_text() {
    let mut b = HttpBody::default();
    assert_eq!(b.data(), "");
    b.append_str("ab".to_string());
    b.append_str("cd".to_string());
    assert_eq!(b.data(), "abcd");
    b.append_json("{}");
    assert_eq!(b.to_string(), "abcd{}");
    b.set_data("x");
    assert_eq!(b.data(), "x");
    let c = b.clone();
    b.clear();
    assert_eq!(b.data(), "");
    assert_eq!(c.data(), "x");
    assert_eq!(HttpBody::from_text("hello").data(), "hello");
    assert_eq!(HttpBody::from_json_text("[1]").data(), "[1]");
    assert_eq!(UrlEncodedForm("a=1".to_string()).0, "a=1");
    assert_eq!(MultipartForm("m".to_string()).0, "m");
}

#[test]
fn header_keeps_each_name_once() {
    let mut h = HttpHeader::default();
    assert!(h.headers().is_empty());
    assert_eq!(h.add_header("Host", "a"), Ok(()));
    assert_eq!(h.add_header("Accept", "b"), Ok(()));
    assert_eq!(h.add_header("Host", "c"), Err(()));
    assert_eq!(
        h.headers(),
        vec![("Host".to_string(), "a".to_string()), ("Accept".to_string(), "b".to_string())]
    );
    assert!(h.remove_header("Host"));
    assert!(!h.remove_header("Host"));
    assert_eq!(h.headers(), vec![("Accept".to_string(), "b".to_string())]);
    assert_eq!(h.add_header("Host", "c"), Ok(()));
    assert_eq!(h.headers().len(), 2);
}

#[test]
fn status_codes_have_numbers_and_names() {
    assert_eq!(code_as_str_name(&HttpStatusCode::Okay), "Ok");
    assert_eq!(code_as_str_name(&HttpStatusCode::NoContent), "No Content");
    assert_eq!(code_as_str_name(&HttpStatusCode::ServerError), "Internal Server Error");
    assert_eq!(code_as_str_name(&HttpStatusCode::BadGateway), "Bad Gateway");
    assert_eq!(HttpStatusCode::Okay.number(), 200);
    assert_eq!(HttpStatusCode::NotFound.number(), 404);
    assert_eq!(HttpStatusCode::BadGateway.number(), 502);
}

#[test]
fn status_line_and_request_accessors() {
    let s = HttpStatus::new(200, "GET", "/index", "HTTP/1.1");
    assert_eq!(s.code(), 200);
    assert_eq!(s.method(), "GET");
    assert_eq!(s.path(), "/index");
    assert_eq!(s.version(), "HTTP/1.1");
    let t = s.clone();
    assert_eq!(t.path(), "/index");
    let mut header = HttpHeader::new();
    let _ = header.add_header("Host", "x");
    let r = HttpRequest::from_parts(s, header, HttpBody::from_text("body"));
    assert_eq!(r.method(), "GET");
    assert_eq!(r.path(), "/index");
    assert_eq!(r.version(), "HTTP/1.1");
    assert_eq!(r.body().data(), "body");
    assert_eq!(r.header().headers().len(), 1);
    let _raw = RawRequest::new([0u8; 8096], 0);
}

fn raw(text: &str) -> RawRequest {
    let mut buffer = [0u8; 8096];
    buffer[..text.len()].copy_from_slice(text.as_bytes());
    RawRequest::new(buffer, text.len())
}

#[test]
fn a_request_is_read_from_its_bytes() {
    let r = HttpRequest::from_raw_request(raw(
        "POST /rpc HTTP/1.1\r\nHost: localhost\r\nContent-Type: application/json\r\n\r\n{\"id\":1}",
    ))
    .unwrap();
    assert_eq!(r.method(), "POST");
    assert_eq!(r.path(), "/rpc");
    assert_eq!(r.version(), "HTTP/1.1");
    assert_eq!(
        r.header().headers(),
        vec![
            ("Host".to_string(), "localhost".to_string()),
            ("Content-Type".to_string(), "application/json".to_string())
        ]
    );
    assert_eq!(r.body().data(), "{\"id\":1}");
}

#[test]
fn a_request_without_body_or_fields() {
    let r = HttpRequest::from_raw_request(raw("GET / HTTP/1.0")).unwrap();
    assert_eq!(r.method(), "GET");
    assert_eq!(r.path(), "/");
    assert_eq!(r.body().data(), "");
    assert!(r.header().headers().is_empty());
    let s = HttpRequest::from_raw_request(raw("GET / HTTP/1.0\r\n\r\n")).unwrap();
    assert_eq!(s.body().data(), "");
}

#[test]
fn the_body_ends_at_the_second_empty_line() {
    let r = HttpRequest::from_raw_request(raw("GET / HTTP/1.1\r\n\r\nab\r\n\r\ncd")).unwrap();
    assert_eq!(r.body().data(), "ab");
}

#[test]
fn a_later_field_replaces_an_earlier_one() {
    let r = HttpRequest::from_raw_request(raw("GET / HTTP/1.1\r\nA: 1\r\nB: 2\r\nA: 3\r\n\r\n"))
        .unwrap();
    assert_eq!(
        r.header().headers(),
        vec![("A".to_string(), "3".to_string()), ("B".to_string(), "2".to_string())]
    );
}

#[test]
fn broken_requests_are_refused() {
    assert!(HttpRequest::from_raw_request(raw("")).is_err());
    assert!(HttpRequest::from_raw_request(raw("   \r\n\r\n")).is_err());
    assert!(HttpRequest::from_raw_request(raw("FETCH / HTTP/1.1\r\n\r\n")).is_err());
    assert!(HttpRequest::from_raw_request(raw("GET /\r\n\r\n")).is_err());
    assert!(HttpRequest::from_raw_request(raw("GET\t/\tHTTP/1.1\r\n\r\n")).is_err());
    assert!(HttpRequest::from_raw_request(raw("GET / HTTP/1.1\r\nHost\r\n\r\n")).is_err());
    assert!(HttpRequest::from_raw_request(RawRequest::new([0u8; 8096], 8097)).is_err());
}

#[test]
fn bytes_that_are_no_text_are_replaced() {
    let mut buffer = [0u8; 8096];
    let text = b"GET /\xff HTTP/1.1\r\n\r\n";
    buffer[..text.len()].copy_from_slice(text);
    let r = HttpRequest::from_raw_request(RawRequest::new(buffer, text.len())).unwrap();
    assert_eq!(r.path(), "/\u{fffd}");
}

#[test]
fn header_text_has_a_line_for_each_field() {
    let mut h = HttpHeader::new();
    assert_eq!(h.to_string(), "\r\n");
    h.set_header("A", "1");
    h.set_header("B", "2");
    h.set_header("A", "3");
    assert_eq!(h.to_string(), "A: 3\r\nB: 2\r\n\r\n");
}

#[test]
fn a_request_is_written_back() {
    let r = HttpRequest::from_raw_request(raw("PUT /a HTTP/1.1\r\nK: v\r\n\r\nbody")).unwrap();
    assert_eq!(r.to_string(), "PUT /a HTTP/1.1\r\nK: v\r\n\r\nbody");
}

#[test]
fn a_header_is_copied_whole() {
    let mut h = HttpHeader::new();
    h.set_header("A", "1");
    let copy = h.clone();
    h.set_header("A", "2");
    assert_eq!(copy.headers(), vec![("A".to_string(), "1".to_string())]);
    assert_eq!(h.headers(), vec![("A".to_string(), "2".to_string())]);
}
