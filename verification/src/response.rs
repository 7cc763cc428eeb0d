//! The error taxonomy and the HTTP-level replies the handlers produce.
use vstd::prelude::*;

verus! {

/// HTTP status for a successful store request.
pub const STATUS_OK: u16 = 200;

/// HTTP status for a malformed submitted URL.
pub const STATUS_BAD_REQUEST: u16 = 400;

/// HTTP status for a lookup of an id that holds no record.
pub const STATUS_NOT_FOUND: u16 = 404;

/// HTTP status for a storage or configuration failure.
pub const STATUS_SERVER_ERROR: u16 = 500;

/// HTTP status for a successful redirect. A temporary redirect is used
/// consistently: stored targets are immutable, but the service keeps the
/// right to reassign behaviour, so clients must not cache the mapping.
pub const STATUS_REDIRECT: u16 = 307;

/// The closed set of failures a request can end in. Every failure is turned
/// into exactly one of these before it reaches the HTTP boundary.
#[derive(Clone, Copy, Debug, PartialEq, Eq, Structural)]
pub enum ServiceError {
    /// The submitted string is not a valid absolute URL.
    Validation,
    /// No record exists under the requested id.
    NotFound,
    /// The backing store failed: unreachable, or it refused the insert
    /// because the id already exists.
    Storage,
    /// The service's own configuration is unusable, e.g. the configured base
    /// URL cannot absorb a generated id.
    Configuration,
}

/// The HTTP status each error maps to. Validation failures are the client's;
/// everything else on the server side stays a generic 404 or 500.
pub open spec fn error_status(e: ServiceError) -> u16 {
    match e {
        ServiceError::Validation => STATUS_BAD_REQUEST,
        ServiceError::NotFound => STATUS_NOT_FOUND,
        ServiceError::Storage => STATUS_SERVER_ERROR,
        ServiceError::Configuration => STATUS_SERVER_ERROR,
    }
}

/// The body each error maps to; none leaks internal detail.
pub open spec fn error_body(e: ServiceError) -> Seq<char> {
    match e {
        ServiceError::Validation => "invalid url"@,
        ServiceError::NotFound => "not found"@,
        ServiceError::Storage => "server error"@,
        ServiceError::Configuration => "server error"@,
    }
}

/// An HTML reply: a status code and a body.
#[derive(Debug, PartialEq, Eq)]
pub struct HtmlResponse {
    pub status: u16,
    pub body: String,
}

impl HtmlResponse {
    /// A reply with the given status and body.
    pub fn new(status: u16, body: String) -> (r: Self)
        ensures
            r.status == status,
            r.body@ == body@,
    {
        HtmlResponse { status, body }
    }

    /// The generic server-side failure reply.
    pub fn server_error() -> (r: Self)
        ensures
            r.status == STATUS_SERVER_ERROR,
            r.body@ == "server error"@,
    {
        Self::new(STATUS_SERVER_ERROR, "server error".to_owned())
    }

    /// The reply for an id that holds no record.
    pub fn not_found() -> (r: Self)
        ensures
            r.status == STATUS_NOT_FOUND,
            r.body@ == "not found"@,
    {
        Self::new(STATUS_NOT_FOUND, "not found".to_owned())
    }

    /// A client-error reply with the given body.
    pub fn bad_request(body: String) -> (r: Self)
        ensures
            r.status == STATUS_BAD_REQUEST,
            r.body@ == body@,
    {
        Self::new(STATUS_BAD_REQUEST, body)
    }

    /// A success reply with the given body.
    pub fn ok(body: String) -> (r: Self)
        ensures
            r.status == STATUS_OK,
            r.body@ == body@,
    {
        Self::new(STATUS_OK, body)
    }

    /// The reply a failure maps to: its status and generic body.
    pub fn from_error(e: ServiceError) -> (r: Self)
        ensures
            r.status == error_status(e),
            r.body@ == error_body(e),
    {
        match e {
            ServiceError::Validation => Self::bad_request("invalid url".to_owned()),
            ServiceError::NotFound => Self::not_found(),
            ServiceError::Storage => Self::server_error(),
            ServiceError::Configuration => Self::server_error(),
        }
    }
}

} // verus!
