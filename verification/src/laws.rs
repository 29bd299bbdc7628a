//! Properties of the handler, proved once and for all over the same
//! spec functions its contracts use.
//!
//! The file store is modeled as a map from names to byte contents: a
//! read is answered from the map, and a write extends it. Everything
//! here holds for every request and every store the model admits.

use vstd::prelude::*;
use vstd::utf8::encode_utf8;

use crate::compress;
use crate::encoding;
use crate::handler::body_matches;
use crate::handler::content_encoding_entries;
use crate::handler::content_type_entries;
use crate::handler::file_action_of;
use crate::handler::negotiated_value;
use crate::handler::response_headers;
use crate::handler::response_status;
use crate::handler::route_of;
use crate::handler::wants_gzip;
use crate::handler::FileActionView;
use crate::handler::FileOutcomeView;
use crate::handler::Route;
use crate::headers;
use crate::method::Method;
use crate::numbers;
use crate::request::RequestView;
use crate::status::StatusCode;

verus! {

/// The store after a request's file operation: a write extends the
/// map, anything else leaves it alone.
pub open spec fn store_after(store: Map<Seq<char>, Seq<u8>>, action: FileActionView) -> Map<
    Seq<char>,
    Seq<u8>,
> {
    match action {
        FileActionView::WriteFile(name, bytes) => store.insert(name, bytes),
        _ => store,
    }
}

/// How a store that keeps its promises answers a file operation: a
/// read returns the stored bytes or fails on an absent name, a write
/// succeeds.
pub open spec fn store_outcome(store: Map<Seq<char>, Seq<u8>>, action: FileActionView) -> FileOutcomeView {
    match action {
        FileActionView::NoFile => FileOutcomeView::NotNeeded,
        FileActionView::ReadFile(name) => if store.contains_key(name) {
            FileOutcomeView::ReadOk(store[name])
        } else {
            FileOutcomeView::ReadErr
        },
        FileActionView::WriteFile(_, _) => FileOutcomeView::WriteOk,
    }
}

/// Every response the handler builds carries a `Content-Length`
/// entry, last, whose value is the decimal byte length of the final
/// body — the one computed after any encoding transform.
pub proof fn lemma_content_length_exact(req: RequestView, out: FileOutcomeView, body_len: nat)
    ensures
        response_headers(req, out, body_len).len() >= 1,
        response_headers(req, out, body_len).last() == (
            "Content-Length"@,
            numbers::dec_str(body_len),
        ),
{
}

/// On the echo route the response is a success carrying the segment:
/// status 200, `Content-Type: text/plain`, the body the echoed
/// segment (gzip-compressed exactly when the negotiated value is
/// `gzip`), and a `Content-Length` of the final body's byte length.
pub proof fn lemma_echo_response(
    req: RequestView,
    out: FileOutcomeView,
    seg: Seq<char>,
    body: Seq<u8>,
)
    requires
        route_of(req.path) == Route::Echo(seg),
        body_matches(req, out, body),
    ensures
        response_status(req, out) == StatusCode::Okay,
        content_type_entries(req, out) == seq![("Content-Type"@, "text/plain"@)],
        response_headers(req, out, body.len()).last() == (
            "Content-Length"@,
            numbers::dec_str(body.len()),
        ),
        !wants_gzip(req) ==> body == encode_utf8(seg),
        wants_gzip(req) ==> compress::gunzip(body) == Some(encode_utf8(seg)),
{
}

/// Round trip: a POST of `bytes` to `/files/<name>` is answered 201
/// with an empty body and extends the store by exactly that entry; a
/// GET of the same name against the extended store is answered 200
/// with exactly the posted bytes.
pub proof fn lemma_files_round_trip(
    store: Map<Seq<char>, Seq<u8>>,
    post: RequestView,
    get: RequestView,
    name: Seq<char>,
    bytes: Seq<u8>,
    post_body: Seq<u8>,
    get_body: Seq<u8>,
)
    requires
        route_of(post.path) == Route::Files(name),
        post.method == Method::Post,
        post.body == bytes,
        route_of(get.path) == Route::Files(name),
        get.method == Method::Get,
        body_matches(post, store_outcome(store, file_action_of(post)), post_body),
        body_matches(
            get,
            store_outcome(store_after(store, file_action_of(post)), file_action_of(get)),
            get_body,
        ),
    ensures
        response_status(post, store_outcome(store, file_action_of(post))) == StatusCode::Created,
        post_body == Seq::<u8>::empty(),
        store_after(store, file_action_of(post)) == store.insert(name, bytes),
        response_status(
            get,
            store_outcome(store_after(store, file_action_of(post)), file_action_of(get)),
        ) == StatusCode::Okay,
        get_body == bytes,
{
    assert(file_action_of(post) == FileActionView::WriteFile(name, bytes));
    assert(store_outcome(store, file_action_of(post)) == FileOutcomeView::WriteOk);
    assert(post_body =~= Seq::<u8>::empty());
    let after = store_after(store, file_action_of(post));
    assert(after.contains_key(name) && after[name] == bytes);
}

/// A GET of a name the store does not hold is answered 404 with an
/// empty body.
pub proof fn lemma_files_missing(
    store: Map<Seq<char>, Seq<u8>>,
    req: RequestView,
    name: Seq<char>,
    body: Seq<u8>,
)
    requires
        route_of(req.path) == Route::Files(name),
        req.method == Method::Get,
        !store.contains_key(name),
        body_matches(req, store_outcome(store, file_action_of(req)), body),
    ensures
        response_status(req, store_outcome(store, file_action_of(req))) == StatusCode::NotFound,
        body == Seq::<u8>::empty(),
{
    assert(body =~= Seq::<u8>::empty());
}

/// `/user-agent` echoes the request's `User-Agent` value with status
/// 200 whenever the header is present.
pub proof fn lemma_user_agent(req: RequestView, out: FileOutcomeView, ua: Seq<char>, body: Seq<u8>)
    requires
        route_of(req.path) == Route::UserAgent,
        headers::lookup(req.headers, "User-Agent"@) == Some(ua),
        body_matches(req, out, body),
    ensures
        response_status(req, out) == StatusCode::Okay,
        body == encode_utf8(ua),
{
}

/// `Accept-Encoding: gzip` on the echo route yields a
/// `Content-Encoding: gzip` header and a body that gzip-decodes to
/// the echoed segment.
pub proof fn lemma_gzip_negotiation(
    req: RequestView,
    out: FileOutcomeView,
    seg: Seq<char>,
    body: Seq<u8>,
)
    requires
        route_of(req.path) == Route::Echo(seg),
        headers::lookup(req.headers, "Accept-Encoding"@) == Some("gzip"@),
        body_matches(req, out, body),
    ensures
        negotiated_value(req) == Some("gzip"@),
        content_encoding_entries(req) == seq![("Content-Encoding"@, "gzip"@)],
        compress::gunzip(body) == Some(encode_utf8(seg)),
{
    reveal_strlit("gzip");
    let s = "gzip"@;
    assert(s.len() == 4);
    assert(forall|i: int| 0 <= i < s.len() ==> #[trigger] s[i] != ',');
    encoding::lemma_negotiate_single(s);
    crate::text::lemma_trim_id(s);
    assert(forall|i: int| 0 <= i < s.len() ==> !('A' <= #[trigger] s[i] <= 'Z'));
    encoding::lemma_lower_id(s);
    assert(encoding::enc_of(s) == Some(encoding::EncodingType::Gzip));
    assert(encoding::negotiated(s) == seq![encoding::EncodingType::Gzip]);
    let es = seq![encoding::EncodingType::Gzip];
    assert(es.drop_first() =~= Seq::<encoding::EncodingType>::empty());
    assert(encoding::joined(es) == encoding::enc_name(encoding::EncodingType::Gzip)
        + encoding::joined_tail(Seq::empty()));
    assert(s + Seq::<char>::empty() =~= s);
    assert(encoding::joined(es) == s);
    assert(wants_gzip(req));
}

/// An `Accept-Encoding` value that names only the unrecognized coding
/// `identity` yields no `Content-Encoding` header and leaves the echo
/// body unmodified.
pub proof fn lemma_identity_not_negotiated(
    req: RequestView,
    out: FileOutcomeView,
    seg: Seq<char>,
    body: Seq<u8>,
)
    requires
        route_of(req.path) == Route::Echo(seg),
        headers::lookup(req.headers, "Accept-Encoding"@) == Some("identity"@),
        body_matches(req, out, body),
    ensures
        negotiated_value(req) is None,
        content_encoding_entries(req) == Seq::<headers::HeaderEntry>::empty(),
        body == encode_utf8(seg),
{
    reveal_strlit("identity");
    reveal_strlit("gzip");
    reveal_strlit("compress");
    reveal_strlit("deflate");
    reveal_strlit("br");
    reveal_strlit("zstd");
    let s = "identity"@;
    assert(s.len() == 8);
    assert(forall|i: int| 0 <= i < s.len() ==> #[trigger] s[i] != ',');
    encoding::lemma_negotiate_single(s);
    crate::text::lemma_trim_id(s);
    assert(forall|i: int| 0 <= i < s.len() ==> !('A' <= #[trigger] s[i] <= 'Z'));
    encoding::lemma_lower_id(s);
    assert(s != "gzip"@ && s != "br"@ && s != "zstd"@);
    assert(s != "compress"@) by {
        assert(s[0] == 'i' && "compress"@[0] == 'c');
    }
    assert(s != "deflate"@);
    assert(encoding::enc_of(s) is None);
    assert(encoding::negotiated(s) =~= Seq::<encoding::EncodingType>::empty());
    assert(negotiated_value(req) is None);
}

/// `/` is answered 200 with an empty body.
pub proof fn lemma_root(req: RequestView, out: FileOutcomeView, body: Seq<u8>)
    requires
        route_of(req.path) == Route::Root,
        body_matches(req, out, body),
    ensures
        response_status(req, out) == StatusCode::Okay,
        body == Seq::<u8>::empty(),
{
    assert(body =~= Seq::<u8>::empty());
}

/// Any path outside the four routes is answered 404 with an empty
/// body.
pub proof fn lemma_unmatched(req: RequestView, out: FileOutcomeView, body: Seq<u8>)
    requires
        route_of(req.path) == Route::Unmatched,
        body_matches(req, out, body),
    ensures
        response_status(req, out) == StatusCode::NotFound,
        body == Seq::<u8>::empty(),
{
    assert(body =~= Seq::<u8>::empty());
}

/// Writes to two distinct names do not interfere: after both, each
/// name reads back its own bytes, and both writes were answered as
/// created.
pub proof fn lemma_independent_writes(
    store: Map<Seq<char>, Seq<u8>>,
    post_a: RequestView,
    post_b: RequestView,
    name_a: Seq<char>,
    name_b: Seq<char>,
    bytes_a: Seq<u8>,
    bytes_b: Seq<u8>,
)
    requires
        route_of(post_a.path) == Route::Files(name_a),
        post_a.method == Method::Post,
        post_a.body == bytes_a,
        route_of(post_b.path) == Route::Files(name_b),
        post_b.method == Method::Post,
        post_b.body == bytes_b,
        name_a != name_b,
    ensures
        response_status(post_a, store_outcome(store, file_action_of(post_a)))
            == StatusCode::Created,
        response_status(
            post_b,
            store_outcome(store_after(store, file_action_of(post_a)), file_action_of(post_b)),
        ) == StatusCode::Created,
        store_outcome(
            store_after(store_after(store, file_action_of(post_a)), file_action_of(post_b)),
            FileActionView::ReadFile(name_a),
        ) == FileOutcomeView::ReadOk(bytes_a),
        store_outcome(
            store_after(store_after(store, file_action_of(post_a)), file_action_of(post_b)),
            FileActionView::ReadFile(name_b),
        ) == FileOutcomeView::ReadOk(bytes_b),
{
    let s1 = store_after(store, file_action_of(post_a));
    let s2 = store_after(s1, file_action_of(post_b));
    assert(s2 == store.insert(name_a, bytes_a).insert(name_b, bytes_b));
    assert(s2.contains_key(name_a) && s2[name_a] == bytes_a);
    assert(s2.contains_key(name_b) && s2[name_b] == bytes_b);
}

} // verus!
