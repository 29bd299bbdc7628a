//! The HTTP request method: a closed enumeration parsed from the first
//! token of the request line.

use vstd::prelude::*;

verus! {

/// The nine standard HTTP/1.1 request methods. Any other token on the
/// request line is a parse failure, not a `Method`.
#[derive(Clone, Copy, PartialEq, Eq, Structural, Debug)]
pub enum Method {
    Get,
    Head,
    Post,
    Put,
    Delete,
    Connect,
    Options,
    Trace,
    Patch,
}

/// The method denoted by a request-line token, if any.
pub open spec fn method_of(s: Seq<char>) -> Option<Method> {
    if s == "GET"@ {
        Some(Method::Get)
    } else if s == "HEAD"@ {
        Some(Method::Head)
    } else if s == "POST"@ {
        Some(Method::Post)
    } else if s == "PUT"@ {
        Some(Method::Put)
    } else if s == "DELETE"@ {
        Some(Method::Delete)
    } else if s == "CONNECT"@ {
        Some(Method::Connect)
    } else if s == "OPTIONS"@ {
        Some(Method::Options)
    } else if s == "TRACE"@ {
        Some(Method::Trace)
    } else if s == "PATCH"@ {
        Some(Method::Patch)
    } else {
        None
    }
}

impl Method {
    /// Parse a request-line token. Unrecognized tokens are rejected.
    pub fn from_str(s: &str) -> (r: Result<Method, ()>)
        ensures
            match r {
                Ok(m) => method_of(s@) == Some(m),
                Err(()) => method_of(s@) is None,
            },
    {
        let t = crate::text::str_to_string(s);
        if crate::text::string_eq_literal(&t, "GET") {
            Ok(Method::Get)
        } else if crate::text::string_eq_literal(&t, "HEAD") {
            Ok(Method::Head)
        } else if crate::text::string_eq_literal(&t, "POST") {
            Ok(Method::Post)
        } else if crate::text::string_eq_literal(&t, "PUT") {
            Ok(Method::Put)
        } else if crate::text::string_eq_literal(&t, "DELETE") {
            Ok(Method::Delete)
        } else if crate::text::string_eq_literal(&t, "CONNECT") {
            Ok(Method::Connect)
        } else if crate::text::string_eq_literal(&t, "OPTIONS") {
            Ok(Method::Options)
        } else if crate::text::string_eq_literal(&t, "TRACE") {
            Ok(Method::Trace)
        } else if crate::text::string_eq_literal(&t, "PATCH") {
            Ok(Method::Patch)
        } else {
            Err(())
        }
    }
}

} // verus!
