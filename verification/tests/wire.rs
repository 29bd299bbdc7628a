use http_server::finish_response;
use http_server::numbers::parse_usize;
use http_server::numbers::usize_to_string;
use http_server::HeaderType;
use http_server::Headers;
use http_server::StatusCode;

#[test]
fn decimal_formatting_exact() {
    assert_eq!(usize_to_string(0), "0");
    assert_eq!(usize_to_string(7), "7");
    assert_eq!(usize_to_string(10), "10");
    assert_eq!(usize_to_string(12345), "12345");
}

#[test]
fn decimal_parsing_exact() {
    assert_eq!(parse_usize("0"), Ok(0));
    assert_eq!(parse_usize("007"), Ok(7));
    assert_eq!(parse_usize("65536"), Ok(65536));
    assert!(parse_usize("").is_err());
    assert!(parse_usize("12a").is_err());
    assert!(parse_usize("-3").is_err());
    assert!(parse_usize(" 3").is_err());
}

#[test]
fn status_display_forms() {
    assert_eq!(StatusCode::Okay.display_string(), "200 OK");
    assert_eq!(StatusCode::Created.display_string(), "201 Created");
    assert_eq!(StatusCode::NotFound.display_string(), "404 Not Found");
    assert_eq!(StatusCode::MethodNotAllowed.display_string(), "405 Method Not Allowed");
    assert_eq!(StatusCode::InternalServerError.display_string(), "500 Internal Server Error");
    assert_eq!(StatusCode::ImATeapot.display_string(), "418 I'm a teapot");
    assert_eq!(
        StatusCode::NetworkAuthenticationRequired.display_string(),
        "511 Network Authentication Required"
    );
}

#[test]
fn serialize_minimal_response() {
    let resp = finish_response(
        "HTTP/1.1".to_string(),
        StatusCode::Okay,
        Headers::new(),
        Vec::new(),
    );
    let bytes = resp.serialize();
    assert_eq!(bytes, b"HTTP/1.1 200 OK\r\nContent-Length: 0\r\n\r\n".to_vec());
}

#[test]
fn serialize_with_headers_and_body() {
    let mut table = Headers::new();
    table.insert(HeaderType::ContentType, "text/plain".to_string());
    let resp = finish_response(
        "HTTP/1.1".to_string(),
        StatusCode::Okay,
        table,
        b"hello".to_vec(),
    );
    let bytes = resp.serialize();
    let expected = b"HTTP/1.1 200 OK\r\nContent-Type: text/plain\r\nContent-Length: 5\r\n\r\nhello";
    assert_eq!(bytes, expected.to_vec());
}

#[test]
fn serialize_keeps_insertion_order() {
    let mut table = Headers::new();
    table.insert(HeaderType::ContentEncoding, "gzip".to_string());
    table.insert(HeaderType::ContentType, "text/plain".to_string());
    let resp = finish_response(
        "HTTP/1.1".to_string(),
        StatusCode::NotFound,
        table,
        Vec::new(),
    );
    let bytes = resp.serialize();
    let expected =
        b"HTTP/1.1 404 Not Found\r\nContent-Encoding: gzip\r\nContent-Type: text/plain\r\nContent-Length: 0\r\n\r\n";
    assert_eq!(bytes, expected.to_vec());
}

#[test]
fn content_length_counts_body_bytes() {
    let resp = finish_response(
        "HTTP/1.1".to_string(),
        StatusCode::Okay,
        Headers::new(),
        vec![0u8; 1234],
    );
    assert_eq!(resp.headers.get(&HeaderType::ContentLength).unwrap(), "1234");
}
