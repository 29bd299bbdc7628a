//! Routing and response building: the decisions the server takes for
//! one parsed request, kept apart from the socket and filesystem work
//! that surrounds them.
//!
//! The file store is an external collaborator. [`plan_request`] says
//! which store operation a request calls for; the caller performs it
//! and hands the result back to [`build_response`], which builds the
//! full response for every possible outcome.

use vstd::prelude::*;
use vstd::pervasive::unreached;
use vstd::string::StrSliceExecFns;
use vstd::utf8::encode_utf8;

use crate::compress;
use crate::encoding;
use crate::headers;
use crate::headers::HeaderType;
use crate::headers::Headers;
use crate::method::Method;
use crate::numbers;
use crate::request::HttpRequest;
use crate::request::RequestView;
use crate::response::HttpResponse;
use crate::status::StatusCode;
use crate::text;

verus! {

/// Which of the built-in routes a path selects.
pub enum Route {
    /// `/echo/<segment>`: the segment is echoed back.
    Echo(Seq<char>),
    /// `/files/<name>`: the file store is consulted.
    Files(Seq<char>),
    /// `/user-agent`: the request's `User-Agent` value is echoed.
    UserAgent,
    /// `/`: an empty success.
    Root,
    /// Anything else.
    Unmatched,
}

/// The path segment starting at `k`, up to the next `'/'` or the end.
pub open spec fn seg_after(path: Seq<char>, k: int) -> Seq<char> {
    let rest = path.skip(k);
    rest.take(text::find_char(rest, '/'))
}

/// Route selection, in priority order.
pub open spec fn route_of(path: Seq<char>) -> Route {
    if text::starts_with(path, "/echo/"@) {
        Route::Echo(seg_after(path, 6))
    } else if text::starts_with(path, "/files/"@) {
        Route::Files(seg_after(path, 7))
    } else if path == "/user-agent"@ {
        Route::UserAgent
    } else if path == "/"@ {
        Route::Root
    } else {
        Route::Unmatched
    }
}

/// The store operation a request calls for.
pub enum FileAction {
    /// The route needs no file work.
    NoFile,
    /// Read the named file from the store.
    ReadFile(String),
    /// Write these bytes to the named file.
    WriteFile(String, Vec<u8>),
}

/// The mathematical content of a [`FileAction`].
pub enum FileActionView {
    NoFile,
    ReadFile(Seq<char>),
    WriteFile(Seq<char>, Seq<u8>),
}

impl View for FileAction {
    type V = FileActionView;

    open spec fn view(&self) -> FileActionView {
        match self {
            FileAction::NoFile => FileActionView::NoFile,
            FileAction::ReadFile(name) => FileActionView::ReadFile(name@),
            FileAction::WriteFile(name, bytes) => FileActionView::WriteFile(name@, bytes@),
        }
    }
}

/// What the store answered.
pub enum FileOutcome {
    /// No store operation was asked for.
    NotNeeded,
    /// The named file was read, with these bytes.
    ReadOk(Vec<u8>),
    /// The named file could not be read.
    ReadErr,
    /// The write succeeded.
    WriteOk,
    /// The write failed, with this message.
    WriteErr(String),
}

/// The mathematical content of a [`FileOutcome`].
pub enum FileOutcomeView {
    NotNeeded,
    ReadOk(Seq<u8>),
    ReadErr,
    WriteOk,
    WriteErr(Seq<char>),
}

impl View for FileOutcome {
    type V = FileOutcomeView;

    open spec fn view(&self) -> FileOutcomeView {
        match self {
            FileOutcome::NotNeeded => FileOutcomeView::NotNeeded,
            FileOutcome::ReadOk(bytes) => FileOutcomeView::ReadOk(bytes@),
            FileOutcome::ReadErr => FileOutcomeView::ReadErr,
            FileOutcome::WriteOk => FileOutcomeView::WriteOk,
            FileOutcome::WriteErr(msg) => FileOutcomeView::WriteErr(msg@),
        }
    }
}

/// The store operation [`plan_request`] announces for a request.
pub open spec fn file_action_of(req: RequestView) -> FileActionView {
    match route_of(req.path) {
        Route::Files(name) => match req.method {
            Method::Get => FileActionView::ReadFile(name),
            Method::Post => FileActionView::WriteFile(name, req.body),
            _ => FileActionView::NoFile,
        },
        _ => FileActionView::NoFile,
    }
}

/// Whether an outcome is an answer to the announced operation.
pub open spec fn outcome_matches(action: FileActionView, out: FileOutcomeView) -> bool {
    match action {
        FileActionView::NoFile => out is NotNeeded,
        FileActionView::ReadFile(_) => out is ReadOk || out is ReadErr,
        FileActionView::WriteFile(_, _) => out is WriteOk || out is WriteErr,
    }
}

/// The negotiated `Content-Encoding` value, when any coding of the
/// request's `Accept-Encoding` value is recognized.
pub open spec fn negotiated_value(req: RequestView) -> Option<Seq<char>> {
    match headers::lookup(req.headers, "Accept-Encoding"@) {
        Some(v) => if encoding::negotiated(v).len() > 0 {
            Some(encoding::joined(encoding::negotiated(v)))
        } else {
            None
        },
        None => None,
    }
}

/// Whether the response body is to be gzip-compressed: the negotiated
/// value must be exactly `gzip`, and only the echo route applies it.
pub open spec fn wants_gzip(req: RequestView) -> bool {
    negotiated_value(req) == Some("gzip"@)
}

/// The `Content-Encoding` entry the response carries, if any.
pub open spec fn content_encoding_entries(req: RequestView) -> Seq<headers::HeaderEntry> {
    match negotiated_value(req) {
        Some(v) => seq![("Content-Encoding"@, v)],
        None => Seq::empty(),
    }
}

/// The `Content-Type` entry the response carries, if any.
pub open spec fn content_type_entries(req: RequestView, out: FileOutcomeView) -> Seq<
    headers::HeaderEntry,
> {
    match route_of(req.path) {
        Route::Echo(_) => seq![("Content-Type"@, "text/plain"@)],
        Route::Files(_) => if req.method is Get && out is ReadOk {
            seq![("Content-Type"@, "application/octet-stream"@)]
        } else {
            Seq::empty()
        },
        Route::UserAgent => if headers::lookup(req.headers, "User-Agent"@) is Some {
            seq![("Content-Type"@, "text/plain"@)]
        } else {
            Seq::empty()
        },
        Route::Root => Seq::empty(),
        Route::Unmatched => Seq::empty(),
    }
}

/// The response's status code for a request and a store outcome.
pub open spec fn response_status(req: RequestView, out: FileOutcomeView) -> StatusCode {
    match route_of(req.path) {
        Route::Echo(_) => StatusCode::Okay,
        Route::Files(_) => match req.method {
            Method::Get => if out is ReadOk {
                StatusCode::Okay
            } else {
                StatusCode::NotFound
            },
            Method::Post => if out is WriteOk {
                StatusCode::Created
            } else {
                StatusCode::InternalServerError
            },
            _ => StatusCode::MethodNotAllowed,
        },
        Route::UserAgent => StatusCode::Okay,
        Route::Root => StatusCode::Okay,
        Route::Unmatched => StatusCode::NotFound,
    }
}

/// The response body before any compression.
pub open spec fn plain_body(req: RequestView, out: FileOutcomeView) -> Seq<u8> {
    match route_of(req.path) {
        Route::Echo(seg) => encode_utf8(seg),
        Route::Files(_) => match out {
            FileOutcomeView::ReadOk(b) => b,
            FileOutcomeView::WriteErr(m) => encode_utf8(m),
            _ => Seq::empty(),
        },
        Route::UserAgent => match headers::lookup(req.headers, "User-Agent"@) {
            Some(ua) => encode_utf8(ua),
            None => Seq::empty(),
        },
        Route::Root => Seq::empty(),
        Route::Unmatched => Seq::empty(),
    }
}

/// How the final body relates to the request: compressed only on the
/// echo route, and only when the negotiated value is exactly `gzip`.
pub open spec fn body_matches(req: RequestView, out: FileOutcomeView, body: Seq<u8>) -> bool {
    if route_of(req.path) is Echo && wants_gzip(req) {
        compress::gunzip(body) == Some(plain_body(req, out))
    } else {
        body == plain_body(req, out)
    }
}

/// The full header sequence of a response whose body has `body_len`
/// bytes: negotiated encoding, content type, then the exact length.
pub open spec fn response_headers(req: RequestView, out: FileOutcomeView, body_len: nat) -> Seq<
    headers::HeaderEntry,
> {
    content_encoding_entries(req) + content_type_entries(req, out) + seq![
        ("Content-Length"@, numbers::dec_str(body_len)),
    ]
}

/// Why a request could not be answered at all; either aborts the
/// connection.
#[derive(Clone, Copy, PartialEq, Eq, Structural, Debug)]
pub enum HandlerError {
    /// `/user-agent` was asked without a `User-Agent` header.
    MissingHeader,
    /// The gzip encoder failed.
    EncodingFailed,
}

/// Whether `e` is the failure this request admits.
pub open spec fn handler_failure(req: RequestView, e: HandlerError) -> bool {
    match e {
        HandlerError::MissingHeader => route_of(req.path) is UserAgent && headers::lookup(
            req.headers,
            "User-Agent"@,
        ) is None,
        HandlerError::EncodingFailed => route_of(req.path) is Echo && wants_gzip(req),
    }
}

proof fn lemma_header_literal_lengths()
    ensures
        "Content-Encoding"@.len() == 16,
        "Content-Type"@.len() == 12,
        "Content-Length"@.len() == 14,
{
    reveal_strlit("Content-Encoding");
    reveal_strlit("Content-Type");
    reveal_strlit("Content-Length");
}

proof fn lemma_no_content_type(t: Seq<headers::HeaderEntry>)
    requires
        forall|j: int| 0 <= j < t.len() ==> (#[trigger] t[j]).0 == "Content-Encoding"@,
    ensures
        headers::lookup(t, "Content-Type"@) is None,
{
    lemma_header_literal_lengths();
    assert(forall|j: int| 0 <= j < t.len() ==> (#[trigger] t[j]).0 != "Content-Type"@);
    headers::lemma_lookup_none(t, "Content-Type"@);
}

proof fn lemma_no_content_length(t: Seq<headers::HeaderEntry>)
    requires
        forall|j: int|
            0 <= j < t.len() ==> (#[trigger] t[j]).0 == "Content-Encoding"@ || (#[trigger] t[j]).0
                == "Content-Type"@,
    ensures
        headers::lookup(t, "Content-Length"@) is None,
{
    lemma_header_literal_lengths();
    assert(forall|j: int| 0 <= j < t.len() ==> (#[trigger] t[j]).0 != "Content-Length"@);
    headers::lemma_lookup_none(t, "Content-Length"@);
}

/// Announce the store operation a request calls for.
pub fn plan_request(req: &HttpRequest) -> (a: FileAction)
    ensures
        a@ == file_action_of(req@),
{
    let path = req.path.as_str();
    if text::starts_with_str(path, "/echo/") {
        FileAction::NoFile
    } else if text::starts_with_str(path, "/files/") {
        proof {
            reveal_strlit("/files/");
            assert("/files/"@.len() == 7);
        }
        let name = segment_from(path, 7);
        match req.method {
            Method::Get => FileAction::ReadFile(name),
            Method::Post => FileAction::WriteFile(
                name,
                vstd::slice::slice_to_vec(req.body.as_slice()),
            ),
            _ => FileAction::NoFile,
        }
    } else {
        FileAction::NoFile
    }
}

fn segment_from(path: &str, k: usize) -> (r: String)
    requires
        k <= path@.len(),
    ensures
        r@ == seg_after(path@, k as int),
{
    let n = path.unicode_len();
    let rest = path.substring_char(k, n);
    proof {
        assert(rest@ =~= path@.skip(k as int));
    }
    let e = text::find_char_at(rest, '/');
    proof {
        text::lemma_find_char(rest@, '/');
    }
    let sub = rest.substring_char(0, e);
    proof {
        assert(sub@ =~= rest@.take(text::find_char(rest@, '/')));
    }
    text::str_to_string(sub)
}

/// Attach the exact `Content-Length` and assemble the response. The
/// length is computed from the final body, after any encoding.
pub fn finish_response(version: String, status: StatusCode, table: Headers, body: Vec<u8>) -> (r:
    HttpResponse)
    requires
        table.wf(),
        headers::lookup(table@, "Content-Length"@) is None,
    ensures
        r.wf(),
        r@.version == version@,
        r@.status_code == status,
        r@.headers == table@.push(("Content-Length"@, numbers::dec_str(body@.len()))),
        r@.body == body@,
{
    let mut table = table;
    let len_str = numbers::usize_to_string(body.len());
    proof {
        headers::lemma_insert_fresh(table@, "Content-Length"@, len_str@);
    }
    table.insert(HeaderType::ContentLength, len_str);
    HttpResponse { version, status_code: status, headers: table, body }
}

/// Build the response for a request and the outcome of its store
/// operation: negotiate the encoding, route, and fix the final
/// `Content-Length`.
pub fn build_response(req: &HttpRequest, outcome: FileOutcome) -> (r: Result<
    HttpResponse,
    HandlerError,
>)
    requires
        req.wf(),
        outcome_matches(file_action_of(req@), outcome@),
    ensures
        match r {
            Ok(resp) => {
                &&& resp.wf()
                &&& resp@.version == req@.version
                &&& resp@.status_code == response_status(req@, outcome@)
                &&& resp@.headers == response_headers(req@, outcome@, resp@.body.len())
                &&& body_matches(req@, outcome@, resp@.body)
            },
            Err(e) => handler_failure(req@, e),
        },
        !(route_of(req@.path) is UserAgent && headers::lookup(req@.headers, "User-Agent"@) is None)
            && !(route_of(req@.path) is Echo && wants_gzip(req@)) ==> r is Ok,
{
    let mut table = Headers::new();
    let enc_value: Option<String> = match req.headers.get(&HeaderType::AcceptEncoding) {
        Some(v) => encoding::negotiate_encodings(v.as_str()),
        None => None,
    };
    let wants_gz: bool = match &enc_value {
        Some(v) => text::string_eq_literal(v, "gzip"),
        None => false,
    };
    proof {
        assert(wants_gz == wants_gzip(req@));
    }
    match enc_value {
        Some(v) => {
            table.insert(HeaderType::ContentEncoding, v);
            proof {
                assert(table@ =~= content_encoding_entries(req@));
            }
        },
        None => {
            proof {
                assert(table@ =~= content_encoding_entries(req@));
            }
        },
    }
    let ghost ce = content_encoding_entries(req@);
    proof {
        assert(forall|j: int| 0 <= j < ce.len() ==> (#[trigger] ce[j]).0 == "Content-Encoding"@);
    }
    let path = req.path.as_str();
    if text::starts_with_str(path, "/echo/") {
        proof {
            reveal_strlit("/echo/");
            assert("/echo/"@.len() == 6);
        }
        let seg = segment_from(path, 6);
        proof {
            lemma_no_content_type(ce);
            headers::lemma_insert_fresh(ce, "Content-Type"@, "text/plain"@);
        }
        table.insert(HeaderType::ContentType, text::str_to_string("text/plain"));
        proof {
            assert(table@ =~= ce + content_type_entries(req@, outcome@));
            lemma_no_content_length(table@);
        }
        let body: Vec<u8> = if wants_gz {
            match compress::gzip_compress(seg.as_str().as_bytes()) {
                Ok(b) => b,
                Err(()) => {
                    return Err(HandlerError::EncodingFailed);
                },
            }
        } else {
            seg.as_str().as_bytes_vec()
        };
        let resp = finish_response(req.version.clone(), StatusCode::Okay, table, body);
        proof {
            assert(resp@.headers =~= response_headers(req@, outcome@, resp@.body.len()));
        }
        Ok(resp)
    } else if text::starts_with_str(path, "/files/") {
        match req.method {
            Method::Get => match outcome {
                FileOutcome::ReadOk(bytes) => {
                    proof {
                        lemma_no_content_type(ce);
                        headers::lemma_insert_fresh(
                            ce,
                            "Content-Type"@,
                            "application/octet-stream"@,
                        );
                    }
                    table.insert(
                        HeaderType::ContentType,
                        text::str_to_string("application/octet-stream"),
                    );
                    proof {
                        assert(table@ =~= ce + content_type_entries(req@, outcome@));
                        lemma_no_content_length(table@);
                    }
                    let resp = finish_response(req.version.clone(), StatusCode::Okay, table, bytes);
                    proof {
                        assert(resp@.headers =~= response_headers(req@, outcome@, resp@.body.len()));
                    }
                    Ok(resp)
                },
                FileOutcome::ReadErr => {
                    proof {
                        assert(table@ =~= ce + content_type_entries(req@, outcome@));
                        lemma_no_content_length(table@);
                    }
                    let resp = finish_response(
                        req.version.clone(),
                        StatusCode::NotFound,
                        table,
                        Vec::new(),
                    );
                    proof {
                        assert(resp@.headers =~= response_headers(req@, outcome@, resp@.body.len()));
                    }
                    Ok(resp)
                },
                _ => unreached(),
            },
            Method::Post => match outcome {
                FileOutcome::WriteOk => {
                    proof {
                        assert(table@ =~= ce + content_type_entries(req@, outcome@));
                        lemma_no_content_length(table@);
                    }
                    let resp = finish_response(
                        req.version.clone(),
                        StatusCode::Created,
                        table,
                        Vec::new(),
                    );
                    proof {
                        assert(resp@.headers =~= response_headers(req@, outcome@, resp@.body.len()));
                    }
                    Ok(resp)
                },
                FileOutcome::WriteErr(msg) => {
                    proof {
                        assert(table@ =~= ce + content_type_entries(req@, outcome@));
                        lemma_no_content_length(table@);
                    }
                    let body = msg.as_str().as_bytes_vec();
                    let resp = finish_response(
                        req.version.clone(),
                        StatusCode::InternalServerError,
                        table,
                        body,
                    );
                    proof {
                        assert(resp@.headers =~= response_headers(req@, outcome@, resp@.body.len()));
                    }
                    Ok(resp)
                },
                _ => unreached(),
            },
            _ => {
                proof {
                    assert(table@ =~= ce + content_type_entries(req@, outcome@));
                    lemma_no_content_length(table@);
                }
                let resp = finish_response(
                    req.version.clone(),
                    StatusCode::MethodNotAllowed,
                    table,
                    Vec::new(),
                );
                proof {
                    assert(resp@.headers =~= response_headers(req@, outcome@, resp@.body.len()));
                }
                Ok(resp)
            },
        }
    } else if text::str_eq(path, "/user-agent") {
        match req.headers.get(&HeaderType::UserAgent) {
            Some(ua) => {
                let body = ua.as_str().as_bytes_vec();
                proof {
                    lemma_no_content_type(ce);
                    headers::lemma_insert_fresh(ce, "Content-Type"@, "text/plain"@);
                }
                table.insert(HeaderType::ContentType, text::str_to_string("text/plain"));
                proof {
                    assert(table@ =~= ce + content_type_entries(req@, outcome@));
                    lemma_no_content_length(table@);
                }
                let resp = finish_response(req.version.clone(), StatusCode::Okay, table, body);
                proof {
                    assert(resp@.headers =~= response_headers(req@, outcome@, resp@.body.len()));
                }
                Ok(resp)
            },
            None => Err(HandlerError::MissingHeader),
        }
    } else if text::str_eq(path, "/") {
        proof {
            assert(table@ =~= ce + content_type_entries(req@, outcome@));
            lemma_no_content_length(table@);
        }
        let resp = finish_response(req.version.clone(), StatusCode::Okay, table, Vec::new());
        proof {
            assert(resp@.headers =~= response_headers(req@, outcome@, resp@.body.len()));
        }
        Ok(resp)
    } else {
        proof {
            assert(table@ =~= ce + content_type_entries(req@, outcome@));
            lemma_no_content_length(table@);
        }
        let resp = finish_response(req.version.clone(), StatusCode::NotFound, table, Vec::new());
        proof {
            assert(resp@.headers =~= response_headers(req@, outcome@, resp@.body.len()));
        }
        Ok(resp)
    }
}

} // verus!
