use vstd::prelude::*;
use vstd::string::*;

verus! {

/// The body of every non-200 response: a machine-readable code and a
/// human-readable message.
#[derive(Clone, Debug)]
pub struct ErrorResponse {
    pub code: String,
    pub message: String,
}

impl ErrorResponse {
    pub fn new(code: &str, message: &str) -> (r: Self)
        ensures
            r.code@ == code@,
            r.message@ == message@,
    {
        ErrorResponse { code: String::from_str(code), message: String::from_str(message) }
    }
}

/// The closed set of failures the gateway reports.
#[derive(Debug)]
pub enum ApiError {
    /// A malformed date, or a reversed range; carries the reason.
    InvalidInput(String),
    /// The upstream service could not be reached in time.
    UpstreamUnavailable,
    /// The upstream service answered with an error, or with a body that
    /// cannot be read; carries the reason.
    UpstreamError(String),
    /// A local failure; carries the cause, which is never shown to callers.
    Internal(String),
}

pub open spec fn invalid_request_code() -> Seq<char> {
    "INVALID_REQUEST"@
}

pub open spec fn upstream_unavailable_code() -> Seq<char> {
    "UPSTREAM_UNAVAILABLE"@
}

pub open spec fn upstream_error_code() -> Seq<char> {
    "UPSTREAM_ERROR"@
}

pub open spec fn internal_error_code() -> Seq<char> {
    "INTERNAL_ERROR"@
}

pub open spec fn unavailable_message() -> Seq<char> {
    "Upstream service not reachable"@
}

pub open spec fn internal_message() -> Seq<char> {
    "Internal server error"@
}

/// `e` is an input error with message `msg`.
pub open spec fn is_invalid_input(e: ApiError, msg: Seq<char>) -> bool {
    e matches ApiError::InvalidInput(m) && m@ == msg
}

/// `e` is an upstream error with message `msg`.
pub open spec fn is_upstream_error(e: ApiError, msg: Seq<char>) -> bool {
    e matches ApiError::UpstreamError(m) && m@ == msg
}

impl ApiError {
    pub open spec fn spec_status(&self) -> u16 {
        match self {
            ApiError::InvalidInput(_) => 400,
            ApiError::UpstreamUnavailable => 504,
            ApiError::UpstreamError(_) => 502,
            ApiError::Internal(_) => 500,
        }
    }

    pub open spec fn spec_code(&self) -> Seq<char> {
        match self {
            ApiError::InvalidInput(_) => invalid_request_code(),
            ApiError::UpstreamUnavailable => upstream_unavailable_code(),
            ApiError::UpstreamError(_) => upstream_error_code(),
            ApiError::Internal(_) => internal_error_code(),
        }
    }

    /// The message a caller sees: the reason for input and upstream errors,
    /// a fixed text otherwise.
    pub open spec fn spec_message(&self) -> Seq<char> {
        match self {
            ApiError::InvalidInput(m) => m@,
            ApiError::UpstreamUnavailable => unavailable_message(),
            ApiError::UpstreamError(m) => m@,
            ApiError::Internal(_) => internal_message(),
        }
    }

    /// The HTTP status of this error.
    pub fn status_code(&self) -> (r: u16)
        ensures
            r == self.spec_status(),
    {
        match self {
            ApiError::InvalidInput(_) => 400,
            ApiError::UpstreamUnavailable => 504,
            ApiError::UpstreamError(_) => 502,
            ApiError::Internal(_) => 500,
        }
    }

    /// The body rendered for this error.
    pub fn error_response(&self) -> (r: ErrorResponse)
        ensures
            r.code@ == self.spec_code(),
            r.message@ == self.spec_message(),
    {
        match self {
            ApiError::InvalidInput(msg) => ErrorResponse::new("INVALID_REQUEST", msg.as_str()),
            ApiError::UpstreamUnavailable => ErrorResponse::new(
                "UPSTREAM_UNAVAILABLE",
                "Upstream service not reachable",
            ),
            ApiError::UpstreamError(msg) => ErrorResponse::new("UPSTREAM_ERROR", msg.as_str()),
            ApiError::Internal(_) => ErrorResponse::new("INTERNAL_ERROR", "Internal server error"),
        }
    }
}

} // verus!
