//! The header model: an identity type over the well-known HTTP header
//! names with a `Custom` fallback, line-level parsing, and an ordered,
//! duplicate-free header table keyed by the canonical wire name.

use vstd::prelude::*;
use vstd::pervasive::VecAdditionalExecFns;
use vstd::string::StrSliceExecFns;
use vstd::string::StringExecFns;

use crate::text;

verus! {

/// A header name: one of the well-known HTTP names, or `Custom` for
/// anything else. Two values denote the same header exactly when their
/// canonical wire names agree.
#[derive(Debug, PartialEq, Eq, Hash)]
pub enum HeaderType {
    Accept,
    AcceptCharset,
    AcceptEncoding,
    AcceptLanguage,
    AccessControlRequestMethod,
    AccessControlRequestHeaders,
    Authorization,
    CacheControl,
    Connection,
    ContentDisposition,
    ContentEncoding,
    ContentLanguage,
    ContentLength,
    ContentType,
    Cookie,
    Date,
    Expect,
    Forwarded,
    From,
    Host,
    IfMatch,
    IfModifiedSince,
    IfNoneMatch,
    IfRange,
    IfUnmodifiedSince,
    MaxForwards,
    Origin,
    Pragma,
    ProxyAuthenticate,
    ProxyAuthorization,
    Range,
    Referer,
    TE,
    Trailer,
    TransferEncoding,
    UserAgent,
    Upgrade,
    Via,
    Warning,
    Custom(String),
}

/// The canonical hyphenated wire form of a header name. A `Custom`
/// name serializes to its stored string unchanged.
pub open spec fn wire_name(h: HeaderType) -> Seq<char> {
    match h {
        HeaderType::Accept => "Accept"@,
        HeaderType::AcceptCharset => "Accept-Charset"@,
        HeaderType::AcceptEncoding => "Accept-Encoding"@,
        HeaderType::AcceptLanguage => "Accept-Language"@,
        HeaderType::AccessControlRequestMethod => "Access-Control-Request-Method"@,
        HeaderType::AccessControlRequestHeaders => "Access-Control-Request-Headers"@,
        HeaderType::Authorization => "Authorization"@,
        HeaderType::CacheControl => "Cache-Control"@,
        HeaderType::Connection => "Connection"@,
        HeaderType::ContentDisposition => "Content-Disposition"@,
        HeaderType::ContentEncoding => "Content-Encoding"@,
        HeaderType::ContentLanguage => "Content-Language"@,
        HeaderType::ContentLength => "Content-Length"@,
        HeaderType::ContentType => "Content-Type"@,
        HeaderType::Cookie => "Cookie"@,
        HeaderType::Date => "Date"@,
        HeaderType::Expect => "Expect"@,
        HeaderType::Forwarded => "Forwarded"@,
        HeaderType::From => "From"@,
        HeaderType::Host => "Host"@,
        HeaderType::IfMatch => "If-Match"@,
        HeaderType::IfModifiedSince => "If-Modified-Since"@,
        HeaderType::IfNoneMatch => "If-None-Match"@,
        HeaderType::IfRange => "If-Range"@,
        HeaderType::IfUnmodifiedSince => "If-Unmodified-Since"@,
        HeaderType::MaxForwards => "Max-Forwards"@,
        HeaderType::Origin => "Origin"@,
        HeaderType::Pragma => "Pragma"@,
        HeaderType::ProxyAuthenticate => "Proxy-Authenticate"@,
        HeaderType::ProxyAuthorization => "Proxy-Authorization"@,
        HeaderType::Range => "Range"@,
        HeaderType::Referer => "Referer"@,
        HeaderType::TE => "TE"@,
        HeaderType::Trailer => "Trailer"@,
        HeaderType::TransferEncoding => "Transfer-Encoding"@,
        HeaderType::UserAgent => "User-Agent"@,
        HeaderType::Upgrade => "Upgrade"@,
        HeaderType::Via => "Via"@,
        HeaderType::Warning => "Warning"@,
        HeaderType::Custom(s) => s@,
    }
}

/// Whether `h` is the `Custom` fallback.
pub open spec fn is_custom(h: HeaderType) -> bool {
    h matches HeaderType::Custom(_)
}

/// Whether `s` is the wire form of one of the well-known names.
pub open spec fn is_known_name(s: Seq<char>) -> bool {
    ||| s == "Accept"@
    ||| s == "Accept-Charset"@
    ||| s == "Accept-Encoding"@
    ||| s == "Accept-Language"@
    ||| s == "Access-Control-Request-Method"@
    ||| s == "Access-Control-Request-Headers"@
    ||| s == "Authorization"@
    ||| s == "Cache-Control"@
    ||| s == "Connection"@
    ||| s == "Content-Disposition"@
    ||| s == "Content-Encoding"@
    ||| s == "Content-Language"@
    ||| s == "Content-Length"@
    ||| s == "Content-Type"@
    ||| s == "Cookie"@
    ||| s == "Date"@
    ||| s == "Expect"@
    ||| s == "Forwarded"@
    ||| s == "From"@
    ||| s == "Host"@
    ||| s == "If-Match"@
    ||| s == "If-Modified-Since"@
    ||| s == "If-None-Match"@
    ||| s == "If-Range"@
    ||| s == "If-Unmodified-Since"@
    ||| s == "Max-Forwards"@
    ||| s == "Origin"@
    ||| s == "Pragma"@
    ||| s == "Proxy-Authenticate"@
    ||| s == "Proxy-Authorization"@
    ||| s == "Range"@
    ||| s == "Referer"@
    ||| s == "TE"@
    ||| s == "Trailer"@
    ||| s == "Transfer-Encoding"@
    ||| s == "User-Agent"@
    ||| s == "Upgrade"@
    ||| s == "Via"@
    ||| s == "Warning"@
}

impl HeaderType {
    /// The canonical wire form of this name, as an owned string.
    pub fn name(&self) -> (r: String)
        ensures
            r@ == wire_name(*self),
    {
        match self {
            HeaderType::Accept => String::from_str("Accept"),
            HeaderType::AcceptCharset => String::from_str("Accept-Charset"),
            HeaderType::AcceptEncoding => String::from_str("Accept-Encoding"),
            HeaderType::AcceptLanguage => String::from_str("Accept-Language"),
            HeaderType::AccessControlRequestMethod => String::from_str(
                "Access-Control-Request-Method",
            ),
            HeaderType::AccessControlRequestHeaders => String::from_str(
                "Access-Control-Request-Headers",
            ),
            HeaderType::Authorization => String::from_str("Authorization"),
            HeaderType::CacheControl => String::from_str("Cache-Control"),
            HeaderType::Connection => String::from_str("Connection"),
            HeaderType::ContentDisposition => String::from_str("Content-Disposition"),
            HeaderType::ContentEncoding => String::from_str("Content-Encoding"),
            HeaderType::ContentLanguage => String::from_str("Content-Language"),
            HeaderType::ContentLength => String::from_str("Content-Length"),
            HeaderType::ContentType => String::from_str("Content-Type"),
            HeaderType::Cookie => String::from_str("Cookie"),
            HeaderType::Date => String::from_str("Date"),
            HeaderType::Expect => String::from_str("Expect"),
            HeaderType::Forwarded => String::from_str("Forwarded"),
            HeaderType::From => String::from_str("From"),
            HeaderType::Host => String::from_str("Host"),
            HeaderType::IfMatch => String::from_str("If-Match"),
            HeaderType::IfModifiedSince => String::from_str("If-Modified-Since"),
            HeaderType::IfNoneMatch => String::from_str("If-None-Match"),
            HeaderType::IfRange => String::from_str("If-Range"),
            HeaderType::IfUnmodifiedSince => String::from_str("If-Unmodified-Since"),
            HeaderType::MaxForwards => String::from_str("Max-Forwards"),
            HeaderType::Origin => String::from_str("Origin"),
            HeaderType::Pragma => String::from_str("Pragma"),
            HeaderType::ProxyAuthenticate => String::from_str("Proxy-Authenticate"),
            HeaderType::ProxyAuthorization => String::from_str("Proxy-Authorization"),
            HeaderType::Range => String::from_str("Range"),
            HeaderType::Referer => String::from_str("Referer"),
            HeaderType::TE => String::from_str("TE"),
            HeaderType::Trailer => String::from_str("Trailer"),
            HeaderType::TransferEncoding => String::from_str("Transfer-Encoding"),
            HeaderType::UserAgent => String::from_str("User-Agent"),
            HeaderType::Upgrade => String::from_str("Upgrade"),
            HeaderType::Via => String::from_str("Via"),
            HeaderType::Warning => String::from_str("Warning"),
            HeaderType::Custom(s) => s.clone(),
        }
    }

    /// Match a name against the well-known set; anything unrecognized
    /// becomes `Custom` with the name stored unchanged.
    pub fn from_str(s: &str) -> (h: HeaderType)
        ensures
            wire_name(h) == s@,
            is_custom(h) <==> !is_known_name(s@),
    {
        let t = text::str_to_string(s);
        if text::string_eq_literal(&t, "Accept") {
            HeaderType::Accept
        } else if text::string_eq_literal(&t, "Accept-Charset") {
            HeaderType::AcceptCharset
        } else if text::string_eq_literal(&t, "Accept-Encoding") {
            HeaderType::AcceptEncoding
        } else if text::string_eq_literal(&t, "Accept-Language") {
            HeaderType::AcceptLanguage
        } else if text::string_eq_literal(&t, "Access-Control-Request-Method") {
            HeaderType::AccessControlRequestMethod
        } else if text::string_eq_literal(&t, "Access-Control-Request-Headers") {
            HeaderType::AccessControlRequestHeaders
        } else if text::string_eq_literal(&t, "Authorization") {
            HeaderType::Authorization
        } else if text::string_eq_literal(&t, "Cache-Control") {
            HeaderType::CacheControl
        } else if text::string_eq_literal(&t, "Connection") {
            HeaderType::Connection
        } else if text::string_eq_literal(&t, "Content-Disposition") {
            HeaderType::ContentDisposition
        } else if text::string_eq_literal(&t, "Content-Encoding") {
            HeaderType::ContentEncoding
        } else if text::string_eq_literal(&t, "Content-Language") {
            HeaderType::ContentLanguage
        } else if text::string_eq_literal(&t, "Content-Length") {
            HeaderType::ContentLength
        } else if text::string_eq_literal(&t, "Content-Type") {
            HeaderType::ContentType
        } else if text::string_eq_literal(&t, "Cookie") {
            HeaderType::Cookie
        } else if text::string_eq_literal(&t, "Date") {
            HeaderType::Date
        } else if text::string_eq_literal(&t, "Expect") {
            HeaderType::Expect
        } else if text::string_eq_literal(&t, "Forwarded") {
            HeaderType::Forwarded
        } else if text::string_eq_literal(&t, "From") {
            HeaderType::From
        } else if text::string_eq_literal(&t, "Host") {
            HeaderType::Host
        } else if text::string_eq_literal(&t, "If-Match") {
            HeaderType::IfMatch
        } else if text::string_eq_literal(&t, "If-Modified-Since") {
            HeaderType::IfModifiedSince
        } else if text::string_eq_literal(&t, "If-None-Match") {
            HeaderType::IfNoneMatch
        } else if text::string_eq_literal(&t, "If-Range") {
            HeaderType::IfRange
        } else if text::string_eq_literal(&t, "If-Unmodified-Since") {
            HeaderType::IfUnmodifiedSince
        } else if text::string_eq_literal(&t, "Max-Forwards") {
            HeaderType::MaxForwards
        } else if text::string_eq_literal(&t, "Origin") {
            HeaderType::Origin
        } else if text::string_eq_literal(&t, "Pragma") {
            HeaderType::Pragma
        } else if text::string_eq_literal(&t, "Proxy-Authenticate") {
            HeaderType::ProxyAuthenticate
        } else if text::string_eq_literal(&t, "Proxy-Authorization") {
            HeaderType::ProxyAuthorization
        } else if text::string_eq_literal(&t, "Range") {
            HeaderType::Range
        } else if text::string_eq_literal(&t, "Referer") {
            HeaderType::Referer
        } else if text::string_eq_literal(&t, "TE") {
            HeaderType::TE
        } else if text::string_eq_literal(&t, "Trailer") {
            HeaderType::Trailer
        } else if text::string_eq_literal(&t, "Transfer-Encoding") {
            HeaderType::TransferEncoding
        } else if text::string_eq_literal(&t, "User-Agent") {
            HeaderType::UserAgent
        } else if text::string_eq_literal(&t, "Upgrade") {
            HeaderType::Upgrade
        } else if text::string_eq_literal(&t, "Via") {
            HeaderType::Via
        } else if text::string_eq_literal(&t, "Warning") {
            HeaderType::Warning
        } else {
            HeaderType::Custom(t)
        }
    }
}

/// Whether a header line has the `name ':' value` shape.
pub open spec fn header_line_ok(line: Seq<char>) -> bool {
    text::find_char(line, ':') < line.len()
}

/// The trimmed name part of a header line, before the first `':'`.
pub open spec fn header_line_name(line: Seq<char>) -> Seq<char> {
    text::trim_spec(line.take(text::find_char(line, ':')))
}

/// The trimmed value part of a header line, after the first `':'`.
pub open spec fn header_line_value(line: Seq<char>) -> Seq<char> {
    text::trim_spec(line.subrange(text::find_char(line, ':') + 1, line.len() as int))
}

impl HeaderType {
    /// Split a header line on its first `':'` into a recognized name
    /// and a trimmed value. A line without `':'` yields nothing.
    pub fn parse(line: &str) -> (r: Option<(HeaderType, String)>)
        ensures
            match r {
                Some((h, v)) => {
                    &&& header_line_ok(line@)
                    &&& wire_name(h) == header_line_name(line@)
                    &&& (is_custom(h) <==> !is_known_name(header_line_name(line@)))
                    &&& v@ == header_line_value(line@)
                },
                None => !header_line_ok(line@),
            },
    {
        let n = line.unicode_len();
        let k = text::find_char_at(line, ':');
        proof {
            text::lemma_find_char(line@, ':');
        }
        if k == n {
            None
        } else {
            let key_part = line.substring_char(0, k);
            proof {
                assert(key_part@ =~= line@.take(k as int));
            }
            let key = text::trim(key_part);
            let value_part = line.substring_char(k + 1, n);
            let value = text::trim(value_part);
            let header = HeaderType::from_str(key.as_str());
            Some((header, value))
        }
    }
}

/// A header table entry, abstracted to its wire name and value.
pub type HeaderEntry = (Seq<char>, Seq<char>);

/// Insert into an entry sequence: overwrite the first entry with the
/// same name, or append a new one.
pub open spec fn insert_entry(entries: Seq<HeaderEntry>, name: Seq<char>, value: Seq<char>) -> Seq<
    HeaderEntry,
>
    decreases entries.len(),
{
    if entries.len() == 0 {
        seq![(name, value)]
    } else if entries[0].0 == name {
        seq![(name, value)] + entries.drop_first()
    } else {
        seq![entries[0]] + insert_entry(entries.drop_first(), name, value)
    }
}

/// The value stored under `name`, if any.
pub open spec fn lookup(entries: Seq<HeaderEntry>, name: Seq<char>) -> Option<Seq<char>>
    decreases entries.len(),
{
    if entries.len() == 0 {
        None
    } else if entries[0].0 == name {
        Some(entries[0].1)
    } else {
        lookup(entries.drop_first(), name)
    }
}

proof fn lemma_insert_entry_at(entries: Seq<HeaderEntry>, name: Seq<char>, value: Seq<char>, i: int)
    requires
        0 <= i <= entries.len(),
        forall|j: int| 0 <= j < i ==> (#[trigger] entries[j]).0 != name,
        i < entries.len() ==> entries[i].0 == name,
    ensures
        insert_entry(entries, name, value) == if i < entries.len() {
            entries.update(i, (name, value))
        } else {
            entries.push((name, value))
        },
    decreases i + entries.len(),
{
    if entries.len() == 0 {
        assert(insert_entry(entries, name, value) =~= entries.push((name, value)));
    } else if i == 0 {
        if entries[0].0 == name {
            assert(seq![(name, value)] + entries.drop_first() =~= entries.update(0, (name, value)));
        } else {
            assert(false);
        }
    } else {
        let rest = entries.drop_first();
        assert(forall|j: int| 0 <= j < i - 1 ==> (#[trigger] rest[j]).0 != name);
        lemma_insert_entry_at(rest, name, value, i - 1);
        if i < entries.len() {
            assert(seq![entries[0]] + rest.update(i - 1, (name, value)) =~= entries.update(
                i,
                (name, value),
            ));
        } else {
            assert(seq![entries[0]] + rest.push((name, value)) =~= entries.push((name, value)));
        }
    }
}

proof fn lemma_lookup_at(entries: Seq<HeaderEntry>, name: Seq<char>, i: int)
    requires
        0 <= i <= entries.len(),
        forall|j: int| 0 <= j < i ==> (#[trigger] entries[j]).0 != name,
        i < entries.len() ==> entries[i].0 == name,
    ensures
        lookup(entries, name) == if i < entries.len() {
            Some(entries[i].1)
        } else {
            None::<Seq<char>>
        },
    decreases i + entries.len(),
{
    if entries.len() == 0 {
    } else if i == 0 {
    } else {
        let rest = entries.drop_first();
        assert(forall|j: int| 0 <= j < i - 1 ==> (#[trigger] rest[j]).0 != name);
        lemma_lookup_at(rest, name, i - 1);
    }
}

/// A name is absent exactly when no entry carries it.
pub proof fn lemma_lookup_none(entries: Seq<HeaderEntry>, name: Seq<char>)
    ensures
        (lookup(entries, name) is None) <==> (forall|j: int|
            0 <= j < entries.len() ==> (#[trigger] entries[j]).0 != name),
    decreases entries.len(),
{
    if entries.len() > 0 {
        lemma_lookup_none(entries.drop_first(), name);
        let rest = entries.drop_first();
        assert(forall|j: int| 0 <= j < rest.len() ==> rest[j] == entries[j + 1]);
        if entries[0].0 != name && (lookup(rest, name) is None) {
            assert forall|j: int| 0 <= j < entries.len() implies (#[trigger] entries[j]).0
                != name by {
                if j >= 1 {
                    assert(entries[j] == rest[j - 1]);
                }
            }
        }
    }
}

/// Appending a fresh name leaves every other lookup unchanged.
pub proof fn lemma_insert_fresh(entries: Seq<HeaderEntry>, name: Seq<char>, value: Seq<char>)
    requires
        lookup(entries, name) is None,
    ensures
        insert_entry(entries, name, value) == entries.push((name, value)),
    decreases entries.len(),
{
    lemma_lookup_none(entries, name);
    lemma_insert_entry_at(entries, name, value, entries.len() as int);
}

/// An ordered header table with at most one entry per wire name.
pub struct Headers {
    entries: Vec<(HeaderType, String)>,
}

impl View for Headers {
    type V = Seq<HeaderEntry>;

    closed spec fn view(&self) -> Seq<HeaderEntry> {
        self.entries@.map_values(|p: (HeaderType, String)| (wire_name(p.0), p.1@))
    }
}

impl Headers {
    /// No two entries share a wire name.
    pub open spec fn wf(self) -> bool {
        forall|i: int, j: int|
            0 <= i < j < self@.len() ==> (#[trigger] self@[i]).0 != (#[trigger] self@[j]).0
    }

    /// An empty table.
    pub fn new() -> (r: Headers)
        ensures
            r@ == Seq::<HeaderEntry>::empty(),
            r.wf(),
    {
        let r = Headers { entries: Vec::new() };
        proof {
            assert(r@ =~= Seq::<HeaderEntry>::empty());
        }
        r
    }

    /// The number of entries.
    pub fn len(&self) -> (n: usize)
        ensures
            n == self@.len(),
    {
        self.entries.len()
    }

    /// The wire name of the entry at `i`.
    pub fn name_at(&self, i: usize) -> (r: String)
        requires
            i < self@.len(),
        ensures
            r@ == self@[i as int].0,
    {
        self.entries[i].0.name()
    }

    /// The value of the entry at `i`.
    pub fn value_at(&self, i: usize) -> (r: &String)
        requires
            i < self@.len(),
        ensures
            r@ == self@[i as int].1,
    {
        &self.entries[i].1
    }

    fn find_index(&self, name: &String) -> (i: usize)
        ensures
            0 <= i <= self@.len(),
            forall|j: int| 0 <= j < i ==> (#[trigger] self@[j]).0 != name@,
            i < self@.len() ==> self@[i as int].0 == name@,
    {
        let n = self.entries.len();
        let mut i: usize = 0;
        while i < n
            invariant
                0 <= i <= n,
                n == self@.len(),
                forall|j: int| 0 <= j < i ==> (#[trigger] self@[j]).0 != name@,
            decreases n - i,
        {
            let en = self.entries[i].0.name();
            if text::string_eq(&en, name) {
                return i;
            }
            i = i + 1;
        }
        i
    }

    /// Set `h` to `v`, overwriting any entry with the same wire name,
    /// else appending.
    pub fn insert(&mut self, h: HeaderType, v: String)
        requires
            old(self).wf(),
        ensures
            final(self).wf(),
            final(self)@ == insert_entry(old(self)@, wire_name(h), v@),
    {
        let name = h.name();
        let i = self.find_index(&name);
        proof {
            lemma_insert_entry_at(self@, name@, v@, i as int);
        }
        if i < self.entries.len() {
            self.entries.set(i, (h, v));
            proof {
                assert(self@ =~= old(self)@.update(i as int, (wire_name(h), v@)));
            }
        } else {
            self.entries.push((h, v));
            proof {
                assert(self@ =~= old(self)@.push((wire_name(h), v@)));
            }
        }
    }

    /// The value stored under the wire name of `h`, if any.
    pub fn get(&self, h: &HeaderType) -> (r: Option<&String>)
        ensures
            match r {
                Some(v) => lookup(self@, wire_name(*h)) == Some(v@),
                None => lookup(self@, wire_name(*h)) is None,
            },
    {
        let name = h.name();
        let i = self.find_index(&name);
        proof {
            lemma_lookup_at(self@, name@, i as int);
        }
        if i < self.entries.len() {
            Some(&self.entries[i].1)
        } else {
            None
        }
    }
}

} // verus!
