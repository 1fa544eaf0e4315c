use vstd::prelude::*;
use vstd::string::*;

use crate::errors::{is_upstream_error, ApiError};
use crate::models::{DailyAverage, PythonApiError, PythonApiResponse, UpstreamPayload};

verus! {

/// What came back from the upstream service once its reply was delivered:
/// the HTTP status, and the body read as each of the two shapes the
/// protocol allows (`None` where it does not have that shape).
#[derive(Debug)]
pub struct UpstreamReply {
    pub status: u16,
    pub error_body: Option<PythonApiError>,
    pub data_body: Option<Vec<DailyAverage>>,
}

/// How one attempt to call the upstream service ended.
#[derive(Debug)]
pub enum UpstreamOutcome {
    /// The outbound client could not be set up; carries the cause.
    ClientUnavailable(String),
    /// No reply arrived: timeout, refused connection, or another transport failure.
    Unreachable,
    /// A status arrived but its body could not be read.
    BodyUnreadable,
    /// A complete reply arrived.
    Replied(UpstreamReply),
}

/// A 2xx status.
pub open spec fn is_success_status(status: u16) -> bool {
    200 <= status <= 299
}

pub open spec fn digit_char(d: nat) -> char
    recommends
        d < 10,
{
    (d + '0' as nat) as char
}

/// The decimal digits of `n`, with no leading zero.
pub open spec fn decimal_of(n: nat) -> Seq<char>
    decreases n,
{
    if n < 10 {
        seq![digit_char(n)]
    } else {
        decimal_of(n / 10) + seq![digit_char(n % 10)]
    }
}

/// The message for an error reported by the upstream service: `{code}: {message}`.
pub open spec fn upstream_message(code: Seq<char>, message: Seq<char>) -> Seq<char> {
    code + ": "@ + message
}

/// The message for a failure status whose body is no `{code, message}` object.
pub open spec fn status_message(status: u16) -> Seq<char> {
    "Upstream returned status "@ + decimal_of(status as nat)
}

/// The message for a 2xx body that has neither of the allowed shapes.
pub open spec fn unparseable_message() -> Seq<char> {
    "Cannot parse upstream JSON: body is neither a data list nor an error object"@
}

/// The message for a reply whose body could not be read.
pub open spec fn unreadable_message() -> Seq<char> {
    "Invalid upstream body"@
}

/// `r` carries exactly the data points `d`.
pub open spec fn is_data_response(r: PythonApiResponse, d: Seq<DailyAverage>) -> bool {
    r matches PythonApiResponse::Success { data } && data@ == d
}

/// `r` is the business error `code` / `message`.
pub open spec fn is_business_error(r: PythonApiResponse, code: Seq<char>, message: Seq<char>) -> bool {
    r matches PythonApiResponse::BusinessError { code: c, message: m } && c@ == code && m@ == message
}

fn digit_text(d: u16) -> (r: &'static str)
    requires
        d < 10,
    ensures
        r@ == seq![digit_char(d as nat)],
{
    proof {
        reveal_strlit("0");
        reveal_strlit("1");
        reveal_strlit("2");
        reveal_strlit("3");
        reveal_strlit("4");
        reveal_strlit("5");
        reveal_strlit("6");
        reveal_strlit("7");
        reveal_strlit("8");
        reveal_strlit("9");
    }
    match d {
        0 => "0",
        1 => "1",
        2 => "2",
        3 => "3",
        4 => "4",
        5 => "5",
        6 => "6",
        7 => "7",
        8 => "8",
        _ => "9",
    }
}

/// The decimal text of `n`.
pub fn decimal_string(n: u16) -> (r: String)
    ensures
        r@ == decimal_of(n as nat),
    decreases n,
{
    if n < 10 {
        String::from_str(digit_text(n))
    } else {
        let mut s = decimal_string(n / 10);
        s.append(digit_text(n % 10));
        s
    }
}

/// `{code}: {message}`.
pub fn combine_code_and_message(code: &str, message: &str) -> (r: String)
    ensures
        r@ == upstream_message(code@, message@),
{
    let mut s = String::from_str(code);
    s.append(": ");
    s.append(message);
    s
}

/// The body of the outbound call: the two dates exactly as the caller gave them.
pub fn upstream_payload(start: &str, end: &str) -> (r: UpstreamPayload)
    ensures
        r.start_date@ == start@,
        r.end_date@ == end@,
{
    UpstreamPayload { start_date: String::from_str(start), end_date: String::from_str(end) }
}

/// `r` is what a delivered reply means: a failure status gives an upstream
/// error, with the upstream's own code and message where the body has them; a
/// 2xx status is read as a data list first, then as a business error, and a
/// body with neither shape is an upstream error.
pub open spec fn reply_classified(reply: UpstreamReply, r: Result<PythonApiResponse, ApiError>) -> bool {
    let err = reply.error_body->Some_0;
    if !is_success_status(reply.status) {
        if reply.error_body is Some {
            r is Err && is_upstream_error(r->Err_0, upstream_message(err.code@, err.message@))
        } else {
            r is Err && is_upstream_error(r->Err_0, status_message(reply.status))
        }
    } else if reply.data_body is Some {
        r is Ok && is_data_response(r->Ok_0, reply.data_body->Some_0@)
    } else if reply.error_body is Some {
        r is Ok && is_business_error(r->Ok_0, err.code@, err.message@)
    } else {
        r is Err && is_upstream_error(r->Err_0, unparseable_message())
    }
}

/// Reads a delivered reply, as `reply_classified` states.
pub fn classify_reply(reply: UpstreamReply) -> (r: Result<PythonApiResponse, ApiError>)
    ensures
        reply_classified(reply, r),
{
    let UpstreamReply { status, error_body, data_body } = reply;
    if !(200 <= status && status <= 299) {
        match error_body {
            Some(err) => {
                let msg = combine_code_and_message(err.code.as_str(), err.message.as_str());
                Err(ApiError::UpstreamError(msg))
            },
            None => {
                let mut msg = String::from_str("Upstream returned status ");
                let digits = decimal_string(status);
                msg.append(digits.as_str());
                Err(ApiError::UpstreamError(msg))
            },
        }
    } else {
        match data_body {
            Some(data) => Ok(PythonApiResponse::Success { data }),
            None => match error_body {
                Some(err) => Ok(
                    PythonApiResponse::BusinessError { code: err.code, message: err.message },
                ),
                None => Err(
                    ApiError::UpstreamError(
                        String::from_str(
                            "Cannot parse upstream JSON: body is neither a data list nor an error object",
                        ),
                    ),
                ),
            },
        }
    }
}

/// Classifies how a call to the upstream service ended: a client that could
/// not be set up is an internal error, a missing reply makes the upstream
/// unavailable, and a delivered reply is read by `classify_reply`.
pub fn call_python_api(outcome: UpstreamOutcome) -> (r: Result<PythonApiResponse, ApiError>)
    ensures
        outcome is ClientUnavailable ==> r is Err && r->Err_0 is Internal,
        outcome is Unreachable ==> r is Err && r->Err_0 is UpstreamUnavailable,
        outcome is BodyUnreadable ==> r is Err && is_upstream_error(
            r->Err_0,
            unreadable_message(),
        ),
        outcome is Replied ==> reply_classified(outcome->Replied_0, r),
{
    match outcome {
        UpstreamOutcome::ClientUnavailable(cause) => Err(ApiError::Internal(cause)),
        UpstreamOutcome::Unreachable => Err(ApiError::UpstreamUnavailable),
        UpstreamOutcome::BodyUnreadable => Err(
            ApiError::UpstreamError(String::from_str("Invalid upstream body")),
        ),
        UpstreamOutcome::Replied(reply) => classify_reply(reply),
    }
}

} // verus!
