use vstd::prelude::*;

use crate::date_validation::{is_valid_range, spec_parse_date, validate_dates};
use crate::errors::{
    internal_error_code, internal_message, invalid_request_code, unavailable_message,
    upstream_error_code, upstream_unavailable_code, ApiError, ErrorResponse,
};
use crate::models::{AverageQuery, DailyAverage, PythonApiResponse, UpstreamPayload};
use crate::python_client::{
    call_python_api, combine_code_and_message, is_success_status, status_message,
    unparseable_message, unreadable_message, upstream_message, upstream_payload,
    UpstreamOutcome,
};

verus! {

/// The body of a gateway response: the data points, or an error object.
#[derive(Debug)]
pub enum ReplyBody {
    Data(Vec<DailyAverage>),
    Error(ErrorResponse),
}

/// A gateway response: an HTTP status and its body.
#[derive(Debug)]
pub struct GatewayReply {
    pub status: u16,
    pub body: ReplyBody,
}

/// A response body as values: the data points, or an error's code and message.
pub enum BodyView {
    Data(Seq<DailyAverage>),
    Error(Seq<char>, Seq<char>),
}

impl View for GatewayReply {
    type V = (u16, BodyView);

    open spec fn view(&self) -> (u16, BodyView) {
        match self.body {
            ReplyBody::Data(v) => (self.status, BodyView::Data(v@)),
            ReplyBody::Error(e) => (self.status, BodyView::Error(e.code@, e.message@)),
        }
    }
}

/// The 200 response carrying the data points `d`.
pub open spec fn data_reply(d: Seq<DailyAverage>) -> (u16, BodyView) {
    (200, BodyView::Data(d))
}

/// The response for the error `e`.
pub open spec fn error_reply(e: ApiError) -> (u16, BodyView) {
    (e.spec_status(), BodyView::Error(e.spec_code(), e.spec_message()))
}

/// The 400 response for a rejected query.
pub open spec fn invalid_request_reply(message: Seq<char>) -> (u16, BodyView) {
    (400, BodyView::Error(invalid_request_code(), message))
}

/// The 502 response for an upstream failure.
pub open spec fn upstream_error_reply(message: Seq<char>) -> (u16, BodyView) {
    (502, BodyView::Error(upstream_error_code(), message))
}

/// The response owed for a query whose dates do not form a valid range.
pub open spec fn rejection_reply(start: Seq<char>, end: Seq<char>) -> (u16, BodyView) {
    if spec_parse_date(start) is None {
        invalid_request_reply("Invalid start_date format"@)
    } else if spec_parse_date(end) is None {
        invalid_request_reply("Invalid end_date format"@)
    } else {
        invalid_request_reply("start_date must be before or equal to end_date"@)
    }
}

/// The response owed for each way a call to the upstream service can end.
pub open spec fn outcome_reply(o: UpstreamOutcome) -> (u16, BodyView) {
    match o {
        UpstreamOutcome::ClientUnavailable(_) => (
            500,
            BodyView::Error(internal_error_code(), internal_message()),
        ),
        UpstreamOutcome::Unreachable => (
            504,
            BodyView::Error(upstream_unavailable_code(), unavailable_message()),
        ),
        UpstreamOutcome::BodyUnreadable => upstream_error_reply(unreadable_message()),
        UpstreamOutcome::Replied(reply) => {
            let err = reply.error_body->Some_0;
            if !is_success_status(reply.status) {
                if reply.error_body is Some {
                    upstream_error_reply(upstream_message(err.code@, err.message@))
                } else {
                    upstream_error_reply(status_message(reply.status))
                }
            } else if reply.data_body is Some {
                data_reply(reply.data_body->Some_0@)
            } else if reply.error_body is Some {
                upstream_error_reply(upstream_message(err.code@, err.message@))
            } else {
                upstream_error_reply(unparseable_message())
            }
        },
    }
}

/// Turns what the upstream service reported into the data points of the
/// response, in the order received, or into an upstream error that combines
/// the upstream's code and message.
pub fn translate(resp: PythonApiResponse) -> (r: Result<Vec<DailyAverage>, ApiError>)
    ensures
        resp matches PythonApiResponse::Success { data } ==> r is Ok && r->Ok_0@ == data@,
        resp matches PythonApiResponse::BusinessError { code, message } ==> r is Err
            && crate::errors::is_upstream_error(r->Err_0, upstream_message(code@, message@)),
{
    match resp {
        PythonApiResponse::Success { data } => Ok(data),
        PythonApiResponse::BusinessError { code, message } => Err(
            ApiError::UpstreamError(combine_code_and_message(code.as_str(), message.as_str())),
        ),
    }
}

/// Renders the end of the pipeline as a response: 200 with the data points,
/// or the error's status with its code and message.
pub fn render(result: Result<Vec<DailyAverage>, ApiError>) -> (r: GatewayReply)
    ensures
        result is Ok ==> r@ == data_reply(result->Ok_0@),
        result is Err ==> r@ == error_reply(result->Err_0),
{
    match result {
        Ok(data) => GatewayReply { status: 200, body: ReplyBody::Data(data) },
        Err(e) => {
            let status = e.status_code();
            let body = e.error_response();
            GatewayReply { status, body: ReplyBody::Error(body) }
        },
    }
}

/// The first step of `GET /prices/average`: a query with a valid range gives
/// the outbound payload, which carries the two dates unchanged; any other
/// query is answered at once with 400, and no outbound call is made.
pub fn begin_average(query: &AverageQuery) -> (r: Result<UpstreamPayload, GatewayReply>)
    ensures
        r is Ok <==> is_valid_range(query.start_date@, query.end_date@),
        r is Ok ==> r->Ok_0.start_date@ == query.start_date@ && r->Ok_0.end_date@
            == query.end_date@,
        r is Err ==> r->Err_0@ == rejection_reply(query.start_date@, query.end_date@),
        r is Err ==> r->Err_0.status == 400 && r->Err_0@.1 is Error && r->Err_0@.1->Error_0
            == invalid_request_code(),
{
    match validate_dates(query.start_date.as_str(), query.end_date.as_str()) {
        Ok(_) => Ok(upstream_payload(query.start_date.as_str(), query.end_date.as_str())),
        Err(e) => Err(render(Err(e))),
    }
}

/// The last step of `GET /prices/average`: the response for how the call to
/// the upstream service ended.
pub fn finish_average(outcome: UpstreamOutcome) -> (r: GatewayReply)
    ensures
        r@ == outcome_reply(outcome),
        outcome is Unreachable ==> r.status == 504 && r@.1 == BodyView::Error(
            upstream_unavailable_code(),
            unavailable_message(),
        ),
        outcome is Replied && !is_success_status(outcome->Replied_0.status) ==> r.status == 502
            && r@.1 is Error && r@.1->Error_0 == upstream_error_code(),
        outcome is Replied && outcome->Replied_0.error_body is Some && (!is_success_status(
            outcome->Replied_0.status,
        ) || outcome->Replied_0.data_body is None) ==> r@ == upstream_error_reply(
            upstream_message(
                outcome->Replied_0.error_body->Some_0.code@,
                outcome->Replied_0.error_body->Some_0.message@,
            ),
        ),
        outcome is Replied && is_success_status(outcome->Replied_0.status)
            && outcome->Replied_0.data_body is Some ==> r.status == 200 && r.body is Data
            && r.body->Data_0@ == outcome->Replied_0.data_body->Some_0@,
{
    let result = match call_python_api(outcome) {
        Ok(resp) => translate(resp),
        Err(e) => Err(e),
    };
    render(result)
}

/// Two calls whose upstream replies succeed with the same data points are
/// answered with the same response, whatever 2xx status each reply had.
pub proof fn same_upstream_data_same_reply(o1: UpstreamOutcome, o2: UpstreamOutcome)
    requires
        o1 is Replied,
        o2 is Replied,
        is_success_status(o1->Replied_0.status),
        is_success_status(o2->Replied_0.status),
        o1->Replied_0.data_body is Some,
        o2->Replied_0.data_body is Some,
        o1->Replied_0.data_body->Some_0@ == o2->Replied_0.data_body->Some_0@,
    ensures
        outcome_reply(o1) == outcome_reply(o2),
        outcome_reply(o1) == data_reply(o1->Replied_0.data_body->Some_0@),
{
}

} // verus!
