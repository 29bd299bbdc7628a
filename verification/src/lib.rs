//! A small verified HTTP/1.1 message layer: request parsing, a header
//! model, content-encoding negotiation, routing decisions, and response
//! serialization. Socket and filesystem work is left to the surrounding
//! application; everything here is pure logic over bytes and characters.

pub mod compress;
pub mod encoding;
pub mod handler;
pub mod headers;
pub mod laws;
pub mod method;
pub mod numbers;
pub mod request;
pub mod response;
pub mod status;
pub mod text;

pub use handler::build_response;
pub use handler::finish_response;
pub use handler::plan_request;
pub use handler::FileAction;
pub use handler::FileOutcome;
pub use handler::HandlerError;
pub use headers::HeaderType;
pub use headers::Headers;
pub use method::Method;
pub use request::HttpRequest;
pub use request::ParseError;
pub use response::HttpResponse;
pub use status::StatusCode;
