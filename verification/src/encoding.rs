//! Content-coding names and the negotiation of a response's
//! `Content-Encoding` header from a request's `Accept-Encoding` value:
//! the value is split on `", "`, recognized names are kept in order,
//! and unknown tokens are dropped silently.

use vstd::prelude::*;
use vstd::string::StrSliceExecFns;
use vstd::string::StringExecFns;

use crate::text;

verus! {

/// The content codings this server recognizes in `Accept-Encoding`.
#[derive(Clone, Copy, PartialEq, Eq, Structural, Debug)]
pub enum EncodingType {
    Gzip,
    Compress,
    Deflate,
    Brotli,
    Zstd,
}

/// The lowercase canonical name of a coding.
pub open spec fn enc_name(e: EncodingType) -> Seq<char> {
    match e {
        EncodingType::Gzip => "gzip"@,
        EncodingType::Compress => "compress"@,
        EncodingType::Deflate => "deflate"@,
        EncodingType::Brotli => "br"@,
        EncodingType::Zstd => "zstd"@,
    }
}

/// ASCII lowercasing of a single character.
pub open spec fn lower_char(c: char) -> char {
    match c {
        'A' => 'a',
        'B' => 'b',
        'C' => 'c',
        'D' => 'd',
        'E' => 'e',
        'F' => 'f',
        'G' => 'g',
        'H' => 'h',
        'I' => 'i',
        'J' => 'j',
        'K' => 'k',
        'L' => 'l',
        'M' => 'm',
        'N' => 'n',
        'O' => 'o',
        'P' => 'p',
        'Q' => 'q',
        'R' => 'r',
        'S' => 's',
        'T' => 't',
        'U' => 'u',
        'V' => 'v',
        'W' => 'w',
        'X' => 'x',
        'Y' => 'y',
        'Z' => 'z',
        _ => c,
    }
}

/// ASCII lowercasing of a string.
pub open spec fn lower(s: Seq<char>) -> Seq<char> {
    s.map_values(|c: char| lower_char(c))
}

/// The coding denoted by one `Accept-Encoding` token, compared after
/// trimming and ASCII case folding; unknown tokens denote none.
pub open spec fn enc_of(tok: Seq<char>) -> Option<EncodingType> {
    let t = lower(text::trim_spec(tok));
    if t == "gzip"@ {
        Some(EncodingType::Gzip)
    } else if t == "compress"@ {
        Some(EncodingType::Compress)
    } else if t == "deflate"@ {
        Some(EncodingType::Deflate)
    } else if t == "br"@ {
        Some(EncodingType::Brotli)
    } else if t == "zstd"@ {
        Some(EncodingType::Zstd)
    } else {
        None
    }
}

fn lower_char_x(c: char) -> (r: char)
    ensures
        r == lower_char(c),
{
    match c {
        'A' => 'a',
        'B' => 'b',
        'C' => 'c',
        'D' => 'd',
        'E' => 'e',
        'F' => 'f',
        'G' => 'g',
        'H' => 'h',
        'I' => 'i',
        'J' => 'j',
        'K' => 'k',
        'L' => 'l',
        'M' => 'm',
        'N' => 'n',
        'O' => 'o',
        'P' => 'p',
        'Q' => 'q',
        'R' => 'r',
        'S' => 's',
        'T' => 't',
        'U' => 'u',
        'V' => 'v',
        'W' => 'w',
        'X' => 'x',
        'Y' => 'y',
        'Z' => 'z',
        _ => c,
    }
}

/// Whether `s` equals `lit` after ASCII case folding of `s` alone.
fn eq_folded(s: &str, lit: &str) -> (r: bool)
    ensures
        r == (lower(s@) == lit@),
{
    let n = s.unicode_len();
    let m = lit.unicode_len();
    if n != m {
        proof {
            assert(lower(s@).len() == s@.len());
        }
        return false;
    }
    let mut i: usize = 0;
    while i < n
        invariant
            0 <= i <= n,
            n == s@.len(),
            n == lit@.len(),
            forall|j: int| 0 <= j < i ==> lower(s@)[j] == lit@[j],
        decreases n - i,
    {
        let c = lower_char_x(s.get_char(i));
        if c != lit.get_char(i) {
            proof {
                assert(lower(s@)[i as int] != lit@[i as int]);
            }
            return false;
        }
        i = i + 1;
    }
    proof {
        assert(lower(s@) =~= lit@);
    }
    true
}

impl EncodingType {
    /// The canonical name, for the `Content-Encoding` header.
    pub fn name_str(&self) -> (r: &'static str)
        ensures
            r@ == enc_name(*self),
    {
        match self {
            EncodingType::Gzip => "gzip",
            EncodingType::Compress => "compress",
            EncodingType::Deflate => "deflate",
            EncodingType::Brotli => "br",
            EncodingType::Zstd => "zstd",
        }
    }

    /// Recognize one token, case-insensitively after trimming.
    pub fn from_str(s: &str) -> (r: Result<EncodingType, ()>)
        ensures
            match r {
                Ok(e) => enc_of(s@) == Some(e),
                Err(()) => enc_of(s@) is None,
            },
    {
        let t = text::trim(s);
        if eq_folded(t.as_str(), "gzip") {
            Ok(EncodingType::Gzip)
        } else if eq_folded(t.as_str(), "compress") {
            Ok(EncodingType::Compress)
        } else if eq_folded(t.as_str(), "deflate") {
            Ok(EncodingType::Deflate)
        } else if eq_folded(t.as_str(), "br") {
            Ok(EncodingType::Brotli)
        } else if eq_folded(t.as_str(), "zstd") {
            Ok(EncodingType::Zstd)
        } else {
            Err(())
        }
    }
}

/// The pieces of `s` around each `", "` separator, built left to right
/// with the piece accumulated so far. Empty pieces are kept.
pub open spec fn split_list_acc(s: Seq<char>, cur: Seq<char>) -> Seq<Seq<char>>
    decreases s.len(),
{
    if s.len() == 0 {
        seq![cur]
    } else if s.len() >= 2 && s[0] == ',' && s[1] == ' ' {
        seq![cur] + split_list_acc(s.subrange(2, s.len() as int), Seq::empty())
    } else {
        split_list_acc(s.drop_first(), cur.push(s[0]))
    }
}

/// The `", "`-separated pieces of `s`; a value with no separator is a
/// single piece.
pub open spec fn split_list(s: Seq<char>) -> Seq<Seq<char>> {
    split_list_acc(s, Seq::empty())
}

/// The codings recognized among `toks`, in order.
pub open spec fn recognized(toks: Seq<Seq<char>>) -> Seq<EncodingType>
    decreases toks.len(),
{
    if toks.len() == 0 {
        Seq::empty()
    } else {
        match enc_of(toks[0]) {
            Some(e) => seq![e] + recognized(toks.drop_first()),
            None => recognized(toks.drop_first()),
        }
    }
}

/// The codings a request's `Accept-Encoding` value asks for, kept in
/// the order encountered.
pub open spec fn negotiated(accept: Seq<char>) -> Seq<EncodingType> {
    recognized(split_list(accept))
}

pub open spec fn joined_tail(es: Seq<EncodingType>) -> Seq<char>
    decreases es.len(),
{
    if es.len() == 0 {
        Seq::empty()
    } else {
        ", "@ + enc_name(es[0]) + joined_tail(es.drop_first())
    }
}

/// The comma-joined header value naming the codings of `es`.
pub open spec fn joined(es: Seq<EncodingType>) -> Seq<char> {
    if es.len() == 0 {
        Seq::empty()
    } else {
        enc_name(es[0]) + joined_tail(es.drop_first())
    }
}

/// Lowercasing leaves a string without uppercase letters unchanged.
pub proof fn lemma_lower_id(s: Seq<char>)
    requires
        forall|i: int| 0 <= i < s.len() ==> !('A' <= #[trigger] s[i] <= 'Z'),
    ensures
        lower(s) == s,
{
    assert forall|i: int| 0 <= i < s.len() implies lower(s)[i] == s[i] by {
        assert(!('A' <= s[i] <= 'Z'));
    }
    assert(lower(s) =~= s);
}

/// A value without `','` is a single piece.
pub proof fn lemma_split_list_whole(s: Seq<char>, cur: Seq<char>)
    requires
        forall|i: int| 0 <= i < s.len() ==> #[trigger] s[i] != ',',
    ensures
        split_list_acc(s, cur) == seq![cur + s],
    decreases s.len(),
{
    if s.len() == 0 {
        assert(cur + s =~= cur);
    } else {
        let rest = s.drop_first();
        assert(forall|i: int| 0 <= i < rest.len() ==> #[trigger] rest[i] == s[i + 1]);
        lemma_split_list_whole(rest, cur.push(s[0]));
        assert(cur.push(s[0]) + rest =~= cur + s);
    }
}

/// A value without `','` negotiates to whatever its one token denotes.
pub proof fn lemma_negotiate_single(s: Seq<char>)
    requires
        forall|i: int| 0 <= i < s.len() ==> #[trigger] s[i] != ',',
    ensures
        negotiated(s) == match enc_of(s) {
            Some(e) => seq![e],
            None => Seq::<EncodingType>::empty(),
        },
{
    lemma_split_list_whole(s, Seq::empty());
    assert(Seq::<char>::empty() + s =~= s);
    let toks = seq![s];
    assert(toks.drop_first() =~= Seq::<Seq<char>>::empty());
    match enc_of(s) {
        Some(e) => {
            assert(recognized(toks) == seq![e] + recognized(Seq::empty()));
            assert(seq![e] + Seq::<EncodingType>::empty() =~= seq![e]);
        },
        None => {
            assert(recognized(toks) == recognized(Seq::<Seq<char>>::empty()));
        },
    }
}

proof fn lemma_joined_tail_push(es: Seq<EncodingType>, e: EncodingType)
    ensures
        joined_tail(es.push(e)) == joined_tail(es) + ", "@ + enc_name(e),
    decreases es.len(),
{
    if es.len() == 0 {
        assert(es.push(e).drop_first() =~= Seq::<EncodingType>::empty());
        assert(joined_tail(es.push(e)) == ", "@ + enc_name(e) + joined_tail(
            Seq::<EncodingType>::empty(),
        ));
        assert(", "@ + enc_name(e) + Seq::<char>::empty() =~= joined_tail(es) + ", "@ + enc_name(
            e,
        ));
    } else {
        assert(es.push(e).drop_first() =~= es.drop_first().push(e));
        lemma_joined_tail_push(es.drop_first(), e);
        assert(", "@ + enc_name(es[0]) + (joined_tail(es.drop_first()) + ", "@ + enc_name(e)) =~= (
        ", "@ + enc_name(es[0]) + joined_tail(es.drop_first())) + ", "@ + enc_name(e));
    }
}

proof fn lemma_joined_push(es: Seq<EncodingType>, e: EncodingType)
    requires
        es.len() > 0,
    ensures
        joined(es.push(e)) == joined(es) + ", "@ + enc_name(e),
{
    assert(es.push(e).drop_first() =~= es.drop_first().push(e));
    lemma_joined_tail_push(es.drop_first(), e);
    assert(enc_name(es[0]) + (joined_tail(es.drop_first()) + ", "@ + enc_name(e)) =~= (enc_name(
        es[0],
    ) + joined_tail(es.drop_first())) + ", "@ + enc_name(e));
}

/// Split an `Accept-Encoding` value on each `", "`.
fn split_list_tokens(s: &str) -> (r: Vec<String>)
    ensures
        r@.map_values(|t: String| t@) == split_list(s@),
{
    let n = s.unicode_len();
    let mut toks: Vec<String> = Vec::new();
    let mut cur = String::new();
    let mut i: usize = 0;
    proof {
        assert(s@.subrange(0, n as int) =~= s@);
        assert(toks@.map_values(|t: String| t@) =~= Seq::<Seq<char>>::empty());
        assert(Seq::<Seq<char>>::empty() + split_list_acc(s@, cur@) =~= split_list_acc(s@, cur@));
    }
    while i < n
        invariant
            0 <= i <= n,
            n == s@.len(),
            toks@.map_values(|t: String| t@) + split_list_acc(
                s@.subrange(i as int, n as int),
                cur@,
            ) == split_list(s@),
        decreases n - i,
    {
        let ghost rest = s@.subrange(i as int, n as int);
        let ghost prev_toks = toks@.map_values(|t: String| t@);
        let ghost prev_cur = cur@;
        proof {
            assert(rest[0] == s@[i as int]);
        }
        if i + 1 < n && s.get_char(i) == ',' && s.get_char(i + 1) == ' ' {
            let done = cur;
            cur = String::new();
            toks.push(done);
            i = i + 2;
            proof {
                assert(rest[1] == s@[i - 1]);
                assert(rest.subrange(2, rest.len() as int) =~= s@.subrange(i as int, n as int));
                let tail = split_list_acc(s@.subrange(i as int, n as int), Seq::empty());
                assert(split_list_acc(rest, prev_cur) == seq![prev_cur] + tail);
                assert(toks@.map_values(|t: String| t@) =~= prev_toks.push(prev_cur));
                assert(prev_toks.push(prev_cur) + tail =~= prev_toks + (seq![prev_cur] + tail));
            }
        } else {
            proof {
                assert(rest.drop_first() =~= s@.subrange(i + 1, n as int));
                if rest.len() >= 2 {
                    assert(rest[1] == s@[i + 1]);
                }
                assert(split_list_acc(rest, prev_cur) == split_list_acc(
                    s@.subrange(i + 1, n as int),
                    prev_cur.push(s@[i as int]),
                ));
            }
            let piece = s.substring_char(i, i + 1);
            proof {
                assert(piece@ =~= seq![s@[i as int]]);
                assert(cur@ + piece@ =~= cur@.push(s@[i as int]));
            }
            cur.append(piece);
            i = i + 1;
        }
    }
    proof {
        assert(s@.subrange(n as int, n as int) =~= Seq::<char>::empty());
    }
    let ghost prev_toks = toks@.map_values(|t: String| t@);
    let ghost prev_cur = cur@;
    toks.push(cur);
    proof {
        assert(toks@.map_values(|t: String| t@) =~= prev_toks.push(prev_cur));
        assert(prev_toks.push(prev_cur) =~= prev_toks + seq![prev_cur]);
    }
    toks
}

/// Decide the response's `Content-Encoding` value from the request's
/// `Accept-Encoding` value: the recognized codings joined with `", "`,
/// or nothing when none is recognized.
pub fn negotiate_encodings(accept: &str) -> (r: Option<String>)
    ensures
        match r {
            Some(v) => negotiated(accept@).len() > 0 && v@ == joined(negotiated(accept@)),
            None => negotiated(accept@).len() == 0,
        },
{
    let toks = split_list_tokens(accept);
    let ghost views = toks@.map_values(|t: String| t@);
    let mut acc: Option<String> = None;
    let ghost mut rec_done: Seq<EncodingType> = Seq::empty();
    let mut i: usize = 0;
    proof {
        assert(views.skip(0) =~= views);
        assert(Seq::<EncodingType>::empty() + recognized(views) =~= recognized(views));
    }
    while i < toks.len()
        invariant
            0 <= i <= toks.len(),
            views == toks@.map_values(|t: String| t@),
            recognized(views) == rec_done + recognized(views.skip(i as int)),
            match acc {
                Some(v) => rec_done.len() > 0 && v@ == joined(rec_done),
                None => rec_done.len() == 0,
            },
        decreases toks.len() - i,
    {
        let ghost rest = views.skip(i as int);
        proof {
            assert(rest[0] == views[i as int]);
            assert(rest.drop_first() =~= views.skip(i + 1));
        }
        match EncodingType::from_str(toks[i].as_str()) {
            Ok(e) => {
                proof {
                    assert(recognized(rest) == seq![e] + recognized(views.skip(i + 1)));
                    assert(rec_done + (seq![e] + recognized(views.skip(i + 1))) =~= rec_done.push(e)
                        + recognized(views.skip(i + 1)));
                }
                acc = match acc {
                    None => {
                        proof {
                            assert(joined(seq![e]) =~= enc_name(e) + joined_tail(
                                Seq::<EncodingType>::empty(),
                            ));
                            assert(seq![e].drop_first() =~= Seq::<EncodingType>::empty());
                            assert(enc_name(e) + Seq::<char>::empty() =~= enc_name(e));
                            assert(rec_done.push(e) =~= seq![e]);
                        }
                        Some(text::str_to_string(e.name_str()))
                    },
                    Some(v) => {
                        proof {
                            lemma_joined_push(rec_done, e);
                        }
                        Some(v.concat(", ").concat(e.name_str()))
                    },
                };
                proof {
                    rec_done = rec_done.push(e);
                }
            },
            Err(()) => {
                proof {
                    assert(recognized(rest) == recognized(views.skip(i + 1)));
                }
            },
        }
        i = i + 1;
    }
    proof {
        assert(views.skip(toks@.len() as int) =~= Seq::<Seq<char>>::empty());
        assert(rec_done + Seq::<EncodingType>::empty() =~= rec_done);
    }
    acc
}

} // verus!
