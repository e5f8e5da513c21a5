use biiot::http::response::HttpResponse;
use biiot::http::status::HttpStatusCode;
use biiot::text::{decimal_string, same_chars, to_ascii_lowercase};

#[test]
fn a_plain_response() {
    let mut r = HttpResponse::new();
    r.set_data("héllo");
    assert_eq!(
        r.to_string("Mon, 1 Jan 2024 00:00:00 GMT"),
        "HTTP/1.1 200 Ok\r\ndate: Mon, 1 Jan 2024 00:00:00 GMT\r\ncontent-length: 6\r\n\
         content-type: text/plain; charset=utf-8\r\n\r\nhéllo"
    );
}

#[test]
fn a_response_with_fields() {
    let mut r = HttpResponse::new();
    r.set_code(HttpStatusCode::NotFound);
    r.add_header("x-a", "1");
    r.add_header("Content-Length", "99");
    r.add_header("DATE", "never");
    r.add_header("x-a", "2");
    assert!(r.get_header("x-a"));
    assert!(!r.get_header("X-A"));
    assert!(!r.get_header("DATE"));
    assert_eq!(r.headers(), vec![("x-a".to_string(), "1".to_string())]);
    assert_eq!(
        r.to_string("now"),
        "HTTP/1.1 404 Not Found\r\ndate: now\r\ncontent-length: 0\r\nx-a: 1\r\n\
         content-type: text/plain; charset=utf-8\r\n\r\n"
    );
    assert!(!r.remove_header("date"));
    assert!(!r.remove_header("missing"));
    assert!(r.remove_header("x-a"));
    assert!(r.headers().is_empty());
}

#[test]
fn a_response_that_names_its_content_type() {
    let mut r = HttpResponse::new();
    r.add_header("content-type", "application/json");
    r.write_str("{".to_string());
    r.write_json("\"a\":1");
    r.write_str("}".to_string());
    assert_eq!(
        r.to_string("now"),
        "HTTP/1.1 200 Ok\r\ndate: now\r\ncontent-length: 7\r\n\
         content-type: application/json\r\n\r\n\r\n{\"a\":1}"
    );
    r.clear_buffer();
    assert_eq!(
        r.to_string("now"),
        "HTTP/1.1 200 Ok\r\ndate: now\r\ncontent-length: 0\r\n\
         content-type: application/json\r\n\r\n\r\n"
    );
}

#[test]
fn numbers_in_decimal() {
    assert_eq!(decimal_string(0), "0");
    assert_eq!(decimal_string(9), "9");
    assert_eq!(decimal_string(10), "10");
    assert_eq!(decimal_string(8096), "8096");
    assert_eq!(decimal_string(usize::MAX), usize::MAX.to_string());
}

#[test]
fn lower_case_of_latin_letters() {
    let lower: Vec<char> = "content-length é".chars().collect();
    assert_eq!(to_ascii_lowercase("Content-LENGTH é"), lower);
    assert!(same_chars(&lower, &lower.clone()));
    assert!(!same_chars(&lower, &Vec::new()));
    let other: Vec<char> = "content-length e".chars().collect();
    assert!(!same_chars(&lower, &other));
}
