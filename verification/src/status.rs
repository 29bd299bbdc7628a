//! The closed enumeration of HTTP status codes, each carrying its
//! canonical reason phrase. The display form is `"<code> <reason>"`.

use vstd::prelude::*;
use vstd::string::StringExecFns;

verus! {

/// A standard HTTP status code.
#[derive(Clone, Copy, PartialEq, Eq, Structural, Hash, Debug)]
pub enum StatusCode {
    Continue,
    SwitchingProtocols,
    Processing,
    Okay,
    Created,
    Accepted,
    NonAuthoritativeInfo,
    NoContent,
    ResetContent,
    PartialContent,
    MultiStatus,
    AlreadyReported,
    ImUsed,
    MultipleChoices,
    MovedPermanently,
    Found,
    SeeOther,
    NotModified,
    UseProxy,
    TemporaryRedirect,
    PermanentRedirect,
    BadRequest,
    Unauthorized,
    PaymentRequired,
    Forbidden,
    NotFound,
    MethodNotAllowed,
    NotAcceptable,
    ProxyAuthRequired,
    RequestTimeout,
    Conflict,
    Gone,
    LengthRequired,
    PreconditionFailed,
    PayloadTooLarge,
    UriTooLong,
    UnsupportedMediaType,
    RangeNotSatisfiable,
    ExpectationFailed,
    ImATeapot,
    MisdirectedRequest,
    UnprocessableEntity,
    Locked,
    FailedDependency,
    TooEarly,
    UpgradeRequired,
    PreconditionRequired,
    TooManyRequests,
    RequestHeaderFieldsTooLarge,
    UnavailableForLegalReasons,
    InternalServerError,
    NotImplemented,
    BadGateway,
    ServiceUnavailable,
    GatewayTimeout,
    HttpVersionNotSupported,
    VariantAlsoNegotiates,
    InsufficientStorage,
    LoopDetected,
    NotExtended,
    NetworkAuthenticationRequired,
}

/// The status line fragment for a code: the number and its canonical
/// reason phrase.
pub open spec fn status_display(s: StatusCode) -> Seq<char> {
    match s {
        StatusCode::Continue => "100 Continue"@,
        StatusCode::SwitchingProtocols => "101 Switching Protocols"@,
        StatusCode::Processing => "102 Processing"@,
        StatusCode::Okay => "200 OK"@,
        StatusCode::Created => "201 Created"@,
        StatusCode::Accepted => "202 Accepted"@,
        StatusCode::NonAuthoritativeInfo => "203 Non-Authoritative Information"@,
        StatusCode::NoContent => "204 No Content"@,
        StatusCode::ResetContent => "205 Reset Content"@,
        StatusCode::PartialContent => "206 Partial Content"@,
        StatusCode::MultiStatus => "207 Multi-Status"@,
        StatusCode::AlreadyReported => "208 Already Reported"@,
        StatusCode::ImUsed => "226 IM Used"@,
        StatusCode::MultipleChoices => "300 Multiple Choices"@,
        StatusCode::MovedPermanently => "301 Moved Permanently"@,
        StatusCode::Found => "302 Found"@,
        StatusCode::SeeOther => "303 See Other"@,
        StatusCode::NotModified => "304 Not Modified"@,
        StatusCode::UseProxy => "305 Use Proxy"@,
        StatusCode::TemporaryRedirect => "307 Temporary Redirect"@,
        StatusCode::PermanentRedirect => "308 Permanent Redirect"@,
        StatusCode::BadRequest => "400 Bad Request"@,
        StatusCode::Unauthorized => "401 Unauthorized"@,
        StatusCode::PaymentRequired => "402 Payment Required"@,
        StatusCode::Forbidden => "403 Forbidden"@,
        StatusCode::NotFound => "404 Not Found"@,
        StatusCode::MethodNotAllowed => "405 Method Not Allowed"@,
        StatusCode::NotAcceptable => "406 Not Acceptable"@,
        StatusCode::ProxyAuthRequired => "407 Proxy Authentication Required"@,
        StatusCode::RequestTimeout => "408 Request Timeout"@,
        StatusCode::Conflict => "409 Conflict"@,
        StatusCode::Gone => "410 Gone"@,
        StatusCode::LengthRequired => "411 Length Required"@,
        StatusCode::PreconditionFailed => "412 Precondition Failed"@,
        StatusCode::PayloadTooLarge => "413 Payload Too Large"@,
        StatusCode::UriTooLong => "414 URI Too Long"@,
        StatusCode::UnsupportedMediaType => "415 Unsupported Media Type"@,
        StatusCode::RangeNotSatisfiable => "416 Range Not Satisfiable"@,
        StatusCode::ExpectationFailed => "417 Expectation Failed"@,
        StatusCode::ImATeapot => "418 I'm a teapot"@,
        StatusCode::MisdirectedRequest => "421 Misdirected Request"@,
        StatusCode::UnprocessableEntity => "422 Unprocessable Entity"@,
        StatusCode::Locked => "423 Locked"@,
        StatusCode::FailedDependency => "424 Failed Dependency"@,
        StatusCode::TooEarly => "425 Too Early"@,
        StatusCode::UpgradeRequired => "426 Upgrade Required"@,
        StatusCode::PreconditionRequired => "428 Precondition Required"@,
        StatusCode::TooManyRequests => "429 Too Many Requests"@,
        StatusCode::RequestHeaderFieldsTooLarge => "431 Request Header Fields Too Large"@,
        StatusCode::UnavailableForLegalReasons => "451 Unavailable For Legal Reasons"@,
        StatusCode::InternalServerError => "500 Internal Server Error"@,
        StatusCode::NotImplemented => "501 Not Implemented"@,
        StatusCode::BadGateway => "502 Bad Gateway"@,
        StatusCode::ServiceUnavailable => "503 Service Unavailable"@,
        StatusCode::GatewayTimeout => "504 Gateway Timeout"@,
        StatusCode::HttpVersionNotSupported => "505 HTTP Version Not Supported"@,
        StatusCode::VariantAlsoNegotiates => "506 Variant Also Negotiates"@,
        StatusCode::InsufficientStorage => "507 Insufficient Storage"@,
        StatusCode::LoopDetected => "508 Loop Detected"@,
        StatusCode::NotExtended => "510 Not Extended"@,
        StatusCode::NetworkAuthenticationRequired => "511 Network Authentication Required"@,
    }
}

impl StatusCode {
    /// The display form `"<code> <reason>"`, as an owned string.
    pub fn display_string(&self) -> (r: String)
        ensures
            r@ == status_display(*self),
    {
        match self {
            StatusCode::Continue => String::from_str("100 Continue"),
            StatusCode::SwitchingProtocols => String::from_str("101 Switching Protocols"),
            StatusCode::Processing => String::from_str("102 Processing"),
            StatusCode::Okay => String::from_str("200 OK"),
            StatusCode::Created => String::from_str("201 Created"),
            StatusCode::Accepted => String::from_str("202 Accepted"),
            StatusCode::NonAuthoritativeInfo => String::from_str("203 Non-Authoritative Information"),
            StatusCode::NoContent => String::from_str("204 No Content"),
            StatusCode::ResetContent => String::from_str("205 Reset Content"),
            StatusCode::PartialContent => String::from_str("206 Partial Content"),
            StatusCode::MultiStatus => String::from_str("207 Multi-Status"),
            StatusCode::AlreadyReported => String::from_str("208 Already Reported"),
            StatusCode::ImUsed => String::from_str("226 IM Used"),
            StatusCode::MultipleChoices => String::from_str("300 Multiple Choices"),
            StatusCode::MovedPermanently => String::from_str("301 Moved Permanently"),
            StatusCode::Found => String::from_str("302 Found"),
            StatusCode::SeeOther => String::from_str("303 See Other"),
            StatusCode::NotModified => String::from_str("304 Not Modified"),
            StatusCode::UseProxy => String::from_str("305 Use Proxy"),
            StatusCode::TemporaryRedirect => String::from_str("307 Temporary Redirect"),
            StatusCode::PermanentRedirect => String::from_str("308 Permanent Redirect"),
            StatusCode::BadRequest => String::from_str("400 Bad Request"),
            StatusCode::Unauthorized => String::from_str("401 Unauthorized"),
            StatusCode::PaymentRequired => String::from_str("402 Payment Required"),
            StatusCode::Forbidden => String::from_str("403 Forbidden"),
            StatusCode::NotFound => String::from_str("404 Not Found"),
            StatusCode::MethodNotAllowed => String::from_str("405 Method Not Allowed"),
            StatusCode::NotAcceptable => String::from_str("406 Not Acceptable"),
            StatusCode::ProxyAuthRequired => String::from_str("407 Proxy Authentication Required"),
            StatusCode::RequestTimeout => String::from_str("408 Request Timeout"),
            StatusCode::Conflict => String::from_str("409 Conflict"),
            StatusCode::Gone => String::from_str("410 Gone"),
            StatusCode::LengthRequired => String::from_str("411 Length Required"),
            StatusCode::PreconditionFailed => String::from_str("412 Precondition Failed"),
            StatusCode::PayloadTooLarge => String::from_str("413 Payload Too Large"),
            StatusCode::UriTooLong => String::from_str("414 URI Too Long"),
            StatusCode::UnsupportedMediaType => String::from_str("415 Unsupported Media Type"),
            StatusCode::RangeNotSatisfiable => String::from_str("416 Range Not Satisfiable"),
            StatusCode::ExpectationFailed => String::from_str("417 Expectation Failed"),
            StatusCode::ImATeapot => String::from_str("418 I'm a teapot"),
            StatusCode::MisdirectedRequest => String::from_str("421 Misdirected Request"),
            StatusCode::UnprocessableEntity => String::from_str("422 Unprocessable Entity"),
            StatusCode::Locked => String::from_str("423 Locked"),
            StatusCode::FailedDependency => String::from_str("424 Failed Dependency"),
            StatusCode::TooEarly => String::from_str("425 Too Early"),
            StatusCode::UpgradeRequired => String::from_str("426 Upgrade Required"),
            StatusCode::PreconditionRequired => String::from_str("428 Precondition Required"),
            StatusCode::TooManyRequests => String::from_str("429 Too Many Requests"),
            StatusCode::RequestHeaderFieldsTooLarge => String::from_str("431 Request Header Fields Too Large"),
            StatusCode::UnavailableForLegalReasons => String::from_str("451 Unavailable For Legal Reasons"),
            StatusCode::InternalServerError => String::from_str("500 Internal Server Error"),
            StatusCode::NotImplemented => String::from_str("501 Not Implemented"),
            StatusCode::BadGateway => String::from_str("502 Bad Gateway"),
            StatusCode::ServiceUnavailable => String::from_str("503 Service Unavailable"),
            StatusCode::GatewayTimeout => String::from_str("504 Gateway Timeout"),
            StatusCode::HttpVersionNotSupported => String::from_str("505 HTTP Version Not Supported"),
            StatusCode::VariantAlsoNegotiates => String::from_str("506 Variant Also Negotiates"),
            StatusCode::InsufficientStorage => String::from_str("507 Insufficient Storage"),
            StatusCode::LoopDetected => String::from_str("508 Loop Detected"),
            StatusCode::NotExtended => String::from_str("510 Not Extended"),
            StatusCode::NetworkAuthenticationRequired => String::from_str("511 Network Authentication Required"),
        }
    }
}

} // verus!
