use std::collections::HashMap;
use std::io::Read;

use http_server::build_response;
use http_server::encoding::negotiate_encodings;
use http_server::encoding::EncodingType;
use http_server::plan_request;
use http_server::FileAction;
use http_server::FileOutcome;
use http_server::HandlerError;
use http_server::HeaderType;
use http_server::Headers;
use http_server::HttpRequest;
use http_server::Method;

fn request(method: Method, path: &str, headers: &[(&str, &str)], body: Vec<u8>) -> HttpRequest {
    let mut table = Headers::new();
    for (k, v) in headers {
        table.insert(HeaderType::from_str(k), v.to_string());
    }
    HttpRequest {
        method,
        path: path.to_string(),
        version: "HTTP/1.1".to_string(),
        headers: table,
        body,
    }
}

/// An in-memory stand-in for the file-store collaborator.
fn run(store: &mut HashMap<String, Vec<u8>>, req: &HttpRequest) -> FileOutcome {
    match plan_request(req) {
        FileAction::NoFile => FileOutcome::NotNeeded,
        FileAction::ReadFile(name) => match store.get(&name) {
            Some(bytes) => FileOutcome::ReadOk(bytes.clone()),
            None => FileOutcome::ReadErr,
        },
        FileAction::WriteFile(name, bytes) => {
            store.insert(name, bytes);
            FileOutcome::WriteOk
        },
    }
}

fn gunzip(bytes: &[u8]) -> Vec<u8> {
    let mut decoder = flate2::read::GzDecoder::new(bytes);
    let mut out = Vec::new();
    decoder.read_to_end(&mut out).unwrap();
    out
}

#[test]
fn encoding_tokens_recognized() {
    assert!(matches!(EncodingType::from_str("gzip"), Ok(EncodingType::Gzip)));
    assert!(matches!(EncodingType::from_str("  GZip "), Ok(EncodingType::Gzip)));
    assert!(matches!(EncodingType::from_str("compress"), Ok(EncodingType::Compress)));
    assert!(matches!(EncodingType::from_str("DEFLATE"), Ok(EncodingType::Deflate)));
    assert!(matches!(EncodingType::from_str("br"), Ok(EncodingType::Brotli)));
    assert!(matches!(EncodingType::from_str("zstd"), Ok(EncodingType::Zstd)));
    assert!(EncodingType::from_str("identity").is_err());
    assert!(EncodingType::from_str("").is_err());
}

#[test]
fn negotiation_joins_recognized_tokens() {
    assert_eq!(negotiate_encodings("gzip"), Some("gzip".to_string()));
    assert_eq!(
        negotiate_encodings("unknown-1, gzip, deflate"),
        Some("gzip, deflate".to_string())
    );
    assert_eq!(negotiate_encodings("identity"), None);
    assert_eq!(negotiate_encodings(""), None);
}

#[test]
fn negotiation_needs_comma_space_separator() {
    assert_eq!(negotiate_encodings("gzip,deflate"), None);
}

#[test]
fn echo_returns_segment() {
    let req = request(Method::Get, "/echo/abc", &[], Vec::new());
    let resp = build_response(&req, FileOutcome::NotNeeded).unwrap();
    assert_eq!(resp.status_code.display_string(), "200 OK");
    assert_eq!(resp.headers.get(&HeaderType::ContentType).unwrap(), "text/plain");
    assert_eq!(resp.headers.get(&HeaderType::ContentLength).unwrap(), "3");
    assert_eq!(resp.body, b"abc".to_vec());
    assert!(resp.headers.get(&HeaderType::ContentEncoding).is_none());
}

#[test]
fn echo_takes_first_segment_only() {
    let req = request(Method::Post, "/echo/one/two", &[], Vec::new());
    let resp = build_response(&req, FileOutcome::NotNeeded).unwrap();
    assert_eq!(resp.body, b"one".to_vec());
}

#[test]
fn echo_empty_segment() {
    let req = request(Method::Get, "/echo/", &[], Vec::new());
    let resp = build_response(&req, FileOutcome::NotNeeded).unwrap();
    assert_eq!(resp.body, Vec::<u8>::new());
    assert_eq!(resp.headers.get(&HeaderType::ContentLength).unwrap(), "0");
}

#[test]
fn echo_gzip_negotiated() {
    let req = request(Method::Get, "/echo/abc", &[("Accept-Encoding", "gzip")], Vec::new());
    let resp = build_response(&req, FileOutcome::NotNeeded).unwrap();
    assert_eq!(resp.status_code.display_string(), "200 OK");
    assert_eq!(resp.headers.get(&HeaderType::ContentEncoding).unwrap(), "gzip");
    assert_eq!(
        resp.headers.get(&HeaderType::ContentLength).unwrap(),
        &resp.body.len().to_string()
    );
    assert_eq!(gunzip(&resp.body), b"abc".to_vec());
}

#[test]
fn echo_identity_not_encoded() {
    let req = request(
        Method::Get,
        "/echo/abc",
        &[("Accept-Encoding", "identity")],
        Vec::new(),
    );
    let resp = build_response(&req, FileOutcome::NotNeeded).unwrap();
    assert!(resp.headers.get(&HeaderType::ContentEncoding).is_none());
    assert_eq!(resp.body, b"abc".to_vec());
}

#[test]
fn echo_multiple_codings_recorded_but_not_applied() {
    let req = request(
        Method::Get,
        "/echo/abc",
        &[("Accept-Encoding", "gzip, deflate")],
        Vec::new(),
    );
    let resp = build_response(&req, FileOutcome::NotNeeded).unwrap();
    assert_eq!(
        resp.headers.get(&HeaderType::ContentEncoding).unwrap(),
        "gzip, deflate"
    );
    assert_eq!(resp.body, b"abc".to_vec());
}

#[test]
fn files_round_trip() {
    let mut store = HashMap::new();
    let post = request(Method::Post, "/files/notes.txt", &[], b"stored bytes".to_vec());
    let outcome = run(&mut store, &post);
    let resp = build_response(&post, outcome).unwrap();
    assert_eq!(resp.status_code.display_string(), "201 Created");
    assert!(resp.body.is_empty());

    let get = request(Method::Get, "/files/notes.txt", &[], Vec::new());
    let outcome = run(&mut store, &get);
    let resp = build_response(&get, outcome).unwrap();
    assert_eq!(resp.status_code.display_string(), "200 OK");
    assert_eq!(
        resp.headers.get(&HeaderType::ContentType).unwrap(),
        "application/octet-stream"
    );
    assert_eq!(resp.body, b"stored bytes".to_vec());
}

#[test]
fn files_missing_is_not_found() {
    let mut store = HashMap::new();
    let get = request(Method::Get, "/files/absent", &[], Vec::new());
    let outcome = run(&mut store, &get);
    let resp = build_response(&get, outcome).unwrap();
    assert_eq!(resp.status_code.display_string(), "404 Not Found");
    assert!(resp.body.is_empty());
}

#[test]
fn files_other_method_not_allowed() {
    let req = request(Method::Delete, "/files/x", &[], Vec::new());
    let resp = build_response(&req, FileOutcome::NotNeeded).unwrap();
    assert_eq!(resp.status_code.display_string(), "405 Method Not Allowed");
    assert!(resp.body.is_empty());
}

#[test]
fn files_write_failure_is_reported() {
    let req = request(Method::Post, "/files/x", &[], b"data".to_vec());
    let resp = build_response(&req, FileOutcome::WriteErr("disk full".to_string())).unwrap();
    assert_eq!(resp.status_code.display_string(), "500 Internal Server Error");
    assert_eq!(resp.body, b"disk full".to_vec());
}

#[test]
fn user_agent_is_reflected() {
    let req = request(
        Method::Get,
        "/user-agent",
        &[("User-Agent", "test-agent/1.0")],
        Vec::new(),
    );
    let resp = build_response(&req, FileOutcome::NotNeeded).unwrap();
    assert_eq!(resp.status_code.display_string(), "200 OK");
    assert_eq!(resp.body, b"test-agent/1.0".to_vec());
}

#[test]
fn user_agent_missing_is_an_error() {
    let req = request(Method::Get, "/user-agent", &[], Vec::new());
    let r = build_response(&req, FileOutcome::NotNeeded);
    assert!(matches!(r, Err(HandlerError::MissingHeader)));
}

#[test]
fn root_is_empty_success() {
    let req = request(Method::Get, "/", &[], Vec::new());
    let resp = build_response(&req, FileOutcome::NotNeeded).unwrap();
    assert_eq!(resp.status_code.display_string(), "200 OK");
    assert!(resp.body.is_empty());
    assert!(resp.headers.get(&HeaderType::ContentType).is_none());
}

#[test]
fn unmatched_path_is_not_found() {
    let req = request(Method::Get, "/nope", &[], Vec::new());
    let resp = build_response(&req, FileOutcome::NotNeeded).unwrap();
    assert_eq!(resp.status_code.display_string(), "404 Not Found");
    assert!(resp.body.is_empty());
}

#[test]
fn independent_writes_do_not_mix() {
    let mut store = HashMap::new();
    let post_a = request(Method::Post, "/files/a", &[], b"contents of a".to_vec());
    let post_b = request(Method::Post, "/files/b", &[], b"contents of b".to_vec());
    let ra = build_response(&post_a, run(&mut store, &post_a)).unwrap();
    let rb = build_response(&post_b, run(&mut store, &post_b)).unwrap();
    assert_eq!(ra.status_code.display_string(), "201 Created");
    assert_eq!(rb.status_code.display_string(), "201 Created");

    let get_a = request(Method::Get, "/files/a", &[], Vec::new());
    let get_b = request(Method::Get, "/files/b", &[], Vec::new());
    let resp_a = build_response(&get_a, run(&mut store, &get_a)).unwrap();
    let resp_b = build_response(&get_b, run(&mut store, &get_b)).unwrap();
    assert_eq!(resp_a.body, b"contents of a".to_vec());
    assert_eq!(resp_b.body, b"contents of b".to_vec());
}

#[test]
fn full_exchange_on_the_wire() {
    let lines = vec!["Accept-Encoding: identity\r\n".to_string()];
    let req = HttpRequest::parse_head("GET /echo/hey HTTP/1.1\r\n", &lines).unwrap();
    let resp = build_response(&req, FileOutcome::NotNeeded).unwrap();
    let bytes = resp.serialize();
    let expected =
        b"HTTP/1.1 200 OK\r\nContent-Type: text/plain\r\nContent-Length: 3\r\n\r\nhey";
    assert_eq!(bytes, expected.to_vec());
}
