use vstd::prelude::*;

verus! {

/// serde_json's `Number`: the JSON number of a price, carried through
/// unchanged and never inspected.
#[verifier::external_type_specification]
#[verifier::external_body]
pub struct ExNumber(serde_json::Number);

/// One upstream data point: a day and its average price.
#[derive(Debug)]
pub struct DailyAverage {
    pub date: String,
    pub average_price: serde_json::Number,
}

/// The `{code, message}` error body of the upstream service.
#[derive(Clone, Debug)]
pub struct PythonApiError {
    pub code: String,
    pub message: String,
}

/// What the upstream service reports once its reply has been delivered:
/// a list of data points, or a business error.
#[derive(Debug)]
pub enum PythonApiResponse {
    Success { data: Vec<DailyAverage> },
    BusinessError { code: String, message: String },
}

/// The incoming query, as received.
#[derive(Clone, Debug)]
pub struct AverageQuery {
    pub start_date: String,
    pub end_date: String,
}

/// The body of the outbound call to the upstream service.
#[derive(Clone, Debug)]
pub struct UpstreamPayload {
    pub start_date: String,
    pub end_date: String,
}

} // verus!
