//! The outbound message and its wire form: status line, header lines,
//! a blank line, then the body bytes verbatim.

use vstd::prelude::*;
use vstd::utf8::encode_utf8;

use crate::headers;
use crate::headers::Headers;
use crate::status::status_display;
use crate::status::StatusCode;

verus! {

/// A response under construction or ready to be written.
pub struct HttpResponse {
    pub version: String,
    pub status_code: StatusCode,
    pub headers: Headers,
    pub body: Vec<u8>,
}

/// The mathematical content of a response.
pub struct ResponseView {
    pub version: Seq<char>,
    pub status_code: StatusCode,
    pub headers: Seq<headers::HeaderEntry>,
    pub body: Seq<u8>,
}

impl View for HttpResponse {
    type V = ResponseView;

    open spec fn view(&self) -> ResponseView {
        ResponseView {
            version: self.version@,
            status_code: self.status_code,
            headers: self.headers@,
            body: self.body@,
        }
    }
}

impl HttpResponse {
    /// The header table carries no duplicate names.
    pub open spec fn wf(self) -> bool {
        self.headers.wf()
    }
}

/// The wire form of one header line: `name ':' ' ' value CRLF`.
pub open spec fn header_line_bytes(e: headers::HeaderEntry) -> Seq<u8> {
    encode_utf8(e.0) + encode_utf8(": "@) + encode_utf8(e.1) + encode_utf8("\r\n"@)
}

/// The wire form of a header block, one line per entry, in order.
pub open spec fn header_block_bytes(entries: Seq<headers::HeaderEntry>) -> Seq<u8>
    decreases entries.len(),
{
    if entries.len() == 0 {
        Seq::empty()
    } else {
        header_block_bytes(entries.drop_last()) + header_line_bytes(entries.last())
    }
}

/// The full wire form of a response: status line, header block, blank
/// line, body.
pub open spec fn response_bytes(r: ResponseView) -> Seq<u8> {
    encode_utf8(r.version) + encode_utf8(" "@) + encode_utf8(status_display(r.status_code))
        + encode_utf8("\r\n"@) + header_block_bytes(r.headers) + encode_utf8("\r\n"@) + r.body
}

/// Append the UTF-8 bytes of `s` to `out`.
fn append_str(out: &mut Vec<u8>, s: &str)
    ensures
        final(out)@ == old(out)@ + encode_utf8(s@),
{
    out.extend_from_slice(s.as_bytes());
}

impl HttpResponse {
    /// Serialize this response into its wire bytes.
    pub fn serialize(&self) -> (out: Vec<u8>)
        ensures
            out@ == response_bytes(self@),
    {
        let mut out: Vec<u8> = Vec::new();
        proof {
            assert(Seq::<u8>::empty() + encode_utf8(self@.version) =~= encode_utf8(self@.version));
        }
        append_str(&mut out, self.version.as_str());
        append_str(&mut out, " ");
        let sd = self.status_code.display_string();
        append_str(&mut out, sd.as_str());
        append_str(&mut out, "\r\n");
        let ghost front = out@;
        let n = self.headers.len();
        let mut i: usize = 0;
        proof {
            assert(self@.headers.take(0) =~= Seq::<headers::HeaderEntry>::empty());
            assert(front + Seq::<u8>::empty() =~= front);
        }
        while i < n
            invariant
                0 <= i <= n,
                n == self@.headers.len(),
                out@ == front + header_block_bytes(self@.headers.take(i as int)),
            decreases n - i,
        {
            let ghost before = out@;
            let name = self.headers.name_at(i);
            append_str(&mut out, name.as_str());
            append_str(&mut out, ": ");
            let value = self.headers.value_at(i);
            append_str(&mut out, value.as_str());
            append_str(&mut out, "\r\n");
            proof {
                let entries = self@.headers;
                assert(entries.take(i + 1).drop_last() =~= entries.take(i as int));
                assert(entries.take(i + 1).last() == entries[i as int]);
                assert(out@ =~= front + header_block_bytes(entries.take(i + 1)));
            }
            i = i + 1;
        }
        proof {
            assert(self@.headers.take(self@.headers.len() as int) =~= self@.headers);
        }
        append_str(&mut out, "\r\n");
        out.extend_from_slice(self.body.as_slice());
        proof {
            assert(out@ =~= response_bytes(self@));
        }
        out
    }
}

} // verus!
