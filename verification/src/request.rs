//! The inbound message: parsing the request line, the header block and
//! the body length out of the lines a connection delivers.
//!
//! A request line is split on whitespace into method, path and
//! protocol version. Header lines are split on their first `':'`;
//! lines without one are skipped rather than failing the request. A
//! `Content-Length` header, when present, gives the body length; its
//! value must be a plain decimal numeral.

use vstd::prelude::*;

use crate::headers;
use crate::headers::HeaderType;
use crate::headers::Headers;
use crate::method::method_of;
use crate::method::Method;
use crate::numbers;
use crate::text;

verus! {

/// Why a request could not be parsed. Any of these aborts the
/// connection that sent the request.
#[derive(Clone, Copy, PartialEq, Eq, Structural, Debug)]
pub enum ParseError {
    /// The request line has fewer than three whitespace-separated
    /// tokens.
    MalformedRequestLine,
    /// The request line's first token is not a known method.
    InvalidMethod,
    /// The `Content-Length` value is not a decimal numeral that fits.
    InvalidContentLength,
}

/// A parsed request.
pub struct HttpRequest {
    pub method: Method,
    pub path: String,
    pub version: String,
    pub headers: Headers,
    pub body: Vec<u8>,
}

/// The mathematical content of a request.
pub struct RequestView {
    pub method: Method,
    pub path: Seq<char>,
    pub version: Seq<char>,
    pub headers: Seq<headers::HeaderEntry>,
    pub body: Seq<u8>,
}

impl View for HttpRequest {
    type V = RequestView;

    open spec fn view(&self) -> RequestView {
        RequestView {
            method: self.method,
            path: self.path@,
            version: self.version@,
            headers: self.headers@,
            body: self.body@,
        }
    }
}

impl HttpRequest {
    /// The header table carries no duplicate names.
    pub open spec fn wf(self) -> bool {
        self.headers.wf()
    }
}

/// What the request line denotes: its first three tokens as method,
/// path and version, or the error that rejects it.
pub open spec fn request_line_result(line: Seq<char>) -> Result<
    (Method, Seq<char>, Seq<char>),
    ParseError,
> {
    let toks = text::split_ws(line);
    if toks.len() < 3 {
        Err(ParseError::MalformedRequestLine)
    } else {
        match method_of(toks[0]) {
            Some(m) => Ok((m, toks[1], toks[2])),
            None => Err(ParseError::InvalidMethod),
        }
    }
}

/// Split a request line into method, path and version.
pub fn parse_request_line(line: &str) -> (r: Result<(Method, String, String), ParseError>)
    ensures
        match r {
            Ok((m, p, v)) => request_line_result(line@) == Ok::<_, ParseError>(
                (m, p@, v@),
            ),
            Err(e) => request_line_result(line@) == Err::<(Method, Seq<char>, Seq<char>), _>(e),
        },
{
    let toks = text::split_whitespace_tokens(line);
    if toks.len() < 3 {
        Err(ParseError::MalformedRequestLine)
    } else {
        match Method::from_str(toks[0].as_str()) {
            Ok(m) => {
                let p = toks[1].clone();
                let v = toks[2].clone();
                Ok((m, p, v))
            },
            Err(()) => Err(ParseError::InvalidMethod),
        }
    }
}

/// Whether a line is only blanks: the line that ends a header block.
pub fn is_blank_line(line: &str) -> (r: bool)
    ensures
        r == (text::trim_spec(line@).len() == 0),
{
    let t = text::trim(line);
    t.as_str().is_empty()
}

/// The name/value entry a header line denotes, if it has one.
pub open spec fn header_line_entry(line: Seq<char>) -> Option<(Seq<char>, Seq<char>)> {
    if headers::header_line_ok(line) {
        Some((headers::header_line_name(line), headers::header_line_value(line)))
    } else {
        None
    }
}

/// The header table a block of lines builds up: each parsed line
/// overwrites any earlier entry of the same name; lines without `':'`
/// are skipped.
pub open spec fn headers_of_lines(lines: Seq<Seq<char>>) -> Seq<headers::HeaderEntry>
    decreases lines.len(),
{
    if lines.len() == 0 {
        Seq::empty()
    } else {
        let prev = headers_of_lines(lines.drop_last());
        match header_line_entry(lines.last()) {
            Some(e) => headers::insert_entry(prev, e.0, e.1),
            None => prev,
        }
    }
}

/// Build the header table from the lines between the request line and
/// the blank separator.
pub fn parse_header_lines(lines: &Vec<String>) -> (r: Headers)
    ensures
        r.wf(),
        r@ == headers_of_lines(lines@.map_values(|l: String| l@)),
{
    let ghost views = lines@.map_values(|l: String| l@);
    let mut table = Headers::new();
    let mut i: usize = 0;
    proof {
        assert(views.take(0) =~= Seq::<Seq<char>>::empty());
    }
    while i < lines.len()
        invariant
            0 <= i <= lines.len(),
            views == lines@.map_values(|l: String| l@),
            table.wf(),
            table@ == headers_of_lines(views.take(i as int)),
        decreases lines.len() - i,
    {
        proof {
            assert(views.take(i + 1).drop_last() =~= views.take(i as int));
            assert(views.take(i + 1).last() == views[i as int]);
        }
        if let Some((h, v)) = HeaderType::parse(lines[i].as_str()) {
            table.insert(h, v);
        }
        i = i + 1;
    }
    proof {
        assert(views.take(lines@.len() as int) =~= views);
    }
    table
}

/// The body length a header table calls for: the `Content-Length`
/// value when present and numeric, zero when the header is absent.
pub open spec fn body_length_of(entries: Seq<headers::HeaderEntry>) -> Result<int, ParseError> {
    match headers::lookup(entries, "Content-Length"@) {
        Some(v) => if v.len() > 0 && numbers::all_digits(v) && numbers::dec_val(v) <= usize::MAX {
            Ok(numbers::dec_val(v) as int)
        } else {
            Err(ParseError::InvalidContentLength)
        },
        None => Ok(0),
    }
}

/// How many body bytes the connection owes after the header block.
pub fn body_length(table: &Headers) -> (r: Result<usize, ParseError>)
    ensures
        match r {
            Ok(n) => body_length_of(table@) == Ok::<int, ParseError>(n as int),
            Err(e) => body_length_of(table@) == Err::<int, ParseError>(e),
        },
{
    match table.get(&HeaderType::ContentLength) {
        Some(v) => match numbers::parse_usize(v.as_str()) {
            Ok(n) => Ok(n),
            Err(()) => Err(ParseError::InvalidContentLength),
        },
        None => Ok(0),
    }
}

impl HttpRequest {
    /// Parse the request line and header block; the body is attached
    /// afterwards, once its length is known and its bytes have
    /// arrived.
    pub fn parse_head(request_line: &str, header_lines: &Vec<String>) -> (r: Result<
        HttpRequest,
        ParseError,
    >)
        ensures
            match r {
                Ok(req) => {
                    &&& req.wf()
                    &&& request_line_result(request_line@) == Ok::<_, ParseError>(
                        (req@.method, req@.path, req@.version),
                    )
                    &&& req@.headers == headers_of_lines(header_lines@.map_values(|l: String| l@))
                    &&& req@.body == Seq::<u8>::empty()
                },
                Err(e) => request_line_result(request_line@) == Err::<
                    (Method, Seq<char>, Seq<char>),
                    _,
                >(e),
            },
    {
        match parse_request_line(request_line) {
            Ok((method, path, version)) => {
                let table = parse_header_lines(header_lines);
                let req = HttpRequest { method, path, version, headers: table, body: Vec::new() };
                proof {
                    assert(req@.body =~= Seq::<u8>::empty());
                }
                Ok(req)
            },
            Err(e) => Err(e),
        }
    }

    /// The same request with `body` attached.
    pub fn with_body(self, body: Vec<u8>) -> (r: HttpRequest)
        ensures
            r@.method == self@.method,
            r@.path == self@.path,
            r@.version == self@.version,
            r@.headers == self@.headers,
            r@.body == body@,
            self.wf() ==> r.wf(),
    {
        HttpRequest { body, ..self }
    }
}

} // verus!
