use http_server::request::body_length;
use http_server::request::parse_request_line;
use http_server::HeaderType;
use http_server::Headers;
use http_server::HttpRequest;
use http_server::Method;
use http_server::ParseError;

#[test]
fn request_line_basic() {
    let (m, p, v) = parse_request_line("GET /index.html HTTP/1.1\r\n").unwrap();
    assert!(matches!(m, Method::Get));
    assert_eq!(p, "/index.html");
    assert_eq!(v, "HTTP/1.1");
}

#[test]
fn request_line_extra_tokens_ignored() {
    let (m, p, v) = parse_request_line("POST /a HTTP/1.1 junk\r\n").unwrap();
    assert!(matches!(m, Method::Post));
    assert_eq!(p, "/a");
    assert_eq!(v, "HTTP/1.1");
}

#[test]
fn request_line_too_short() {
    let r = parse_request_line("GET /only-two\r\n");
    assert!(matches!(r, Err(ParseError::MalformedRequestLine)));
}

#[test]
fn request_line_unknown_method() {
    let r = parse_request_line("FETCH / HTTP/1.1\r\n");
    assert!(matches!(r, Err(ParseError::InvalidMethod)));
}

#[test]
fn methods_parse() {
    assert!(matches!(Method::from_str("GET"), Ok(Method::Get)));
    assert!(matches!(Method::from_str("HEAD"), Ok(Method::Head)));
    assert!(matches!(Method::from_str("POST"), Ok(Method::Post)));
    assert!(matches!(Method::from_str("PUT"), Ok(Method::Put)));
    assert!(matches!(Method::from_str("DELETE"), Ok(Method::Delete)));
    assert!(matches!(Method::from_str("CONNECT"), Ok(Method::Connect)));
    assert!(matches!(Method::from_str("OPTIONS"), Ok(Method::Options)));
    assert!(matches!(Method::from_str("TRACE"), Ok(Method::Trace)));
    assert!(matches!(Method::from_str("PATCH"), Ok(Method::Patch)));
    assert!(Method::from_str("get").is_err());
    assert!(Method::from_str("").is_err());
}

#[test]
fn header_line_known_name() {
    let (h, v) = HeaderType::parse("Content-Type: text/html\r\n").unwrap();
    assert_eq!(h, HeaderType::ContentType);
    assert_eq!(v, "text/html");
}

#[test]
fn header_line_custom_name() {
    let (h, v) = HeaderType::parse("X-Custom-Thing:  some value \r\n").unwrap();
    assert_eq!(h, HeaderType::Custom("X-Custom-Thing".to_string()));
    assert_eq!(v, "some value");
}

#[test]
fn header_line_without_colon_is_skipped() {
    assert!(HeaderType::parse("this line has no separator\r\n").is_none());
}

#[test]
fn header_line_value_keeps_inner_colons() {
    let (h, v) = HeaderType::parse("Host: example.com:8080\r\n").unwrap();
    assert_eq!(h, HeaderType::Host);
    assert_eq!(v, "example.com:8080");
}

#[test]
fn header_names_round_trip() {
    let names = [
        "Accept",
        "Accept-Encoding",
        "Authorization",
        "Content-Length",
        "Content-Type",
        "Host",
        "User-Agent",
        "Transfer-Encoding",
    ];
    for n in names {
        let h = HeaderType::from_str(n);
        assert_eq!(h.name(), n);
        assert_ne!(h, HeaderType::Custom(n.to_string()));
    }
    let c = HeaderType::from_str("X-Unknown");
    assert_eq!(c, HeaderType::Custom("X-Unknown".to_string()));
    assert_eq!(c.name(), "X-Unknown");
}

#[test]
fn headers_insert_overwrites() {
    let mut t = Headers::new();
    t.insert(HeaderType::Host, "one".to_string());
    t.insert(HeaderType::Host, "two".to_string());
    assert_eq!(t.len(), 1);
    assert_eq!(t.get(&HeaderType::Host).unwrap(), "two");
    assert!(t.get(&HeaderType::Accept).is_none());
}

#[test]
fn parse_head_collects_headers() {
    let lines = vec![
        "Host: localhost:4221\r\n".to_string(),
        "User-Agent: curl/7.64.1\r\n".to_string(),
        "not a header line\r\n".to_string(),
        "Accept: */*\r\n".to_string(),
    ];
    let req = HttpRequest::parse_head("GET /user-agent HTTP/1.1\r\n", &lines).unwrap();
    assert!(matches!(req.method, Method::Get));
    assert_eq!(req.path, "/user-agent");
    assert_eq!(req.version, "HTTP/1.1");
    assert_eq!(req.headers.get(&HeaderType::Host).unwrap(), "localhost:4221");
    assert_eq!(req.headers.get(&HeaderType::UserAgent).unwrap(), "curl/7.64.1");
    assert_eq!(req.headers.get(&HeaderType::Accept).unwrap(), "*/*");
    assert!(req.body.is_empty());
}

#[test]
fn parse_head_duplicate_header_overwrites() {
    let lines = vec![
        "Host: first\r\n".to_string(),
        "Host: second\r\n".to_string(),
    ];
    let req = HttpRequest::parse_head("GET / HTTP/1.1\r\n", &lines).unwrap();
    assert_eq!(req.headers.get(&HeaderType::Host).unwrap(), "second");
}

#[test]
fn body_length_absent_is_zero() {
    let t = Headers::new();
    assert_eq!(body_length(&t), Ok(0));
}

#[test]
fn body_length_parses_value() {
    let mut t = Headers::new();
    t.insert(HeaderType::ContentLength, "42".to_string());
    assert_eq!(body_length(&t), Ok(42));
}

#[test]
fn body_length_rejects_non_numeric() {
    let mut t = Headers::new();
    t.insert(HeaderType::ContentLength, "4x2".to_string());
    assert!(matches!(body_length(&t), Err(ParseError::InvalidContentLength)));
}

#[test]
fn body_length_rejects_huge_value() {
    let mut t = Headers::new();
    t.insert(
        HeaderType::ContentLength,
        "99999999999999999999999999999999".to_string(),
    );
    assert!(matches!(body_length(&t), Err(ParseError::InvalidContentLength)));
}

#[test]
fn with_body_attaches_bytes() {
    let req = HttpRequest::parse_head("POST /files/a HTTP/1.1\r\n", &Vec::new()).unwrap();
    let req = req.with_body(vec![1u8, 2, 3]);
    assert_eq!(req.body, vec![1u8, 2, 3]);
}
