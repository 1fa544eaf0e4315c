use rust_api::config::{AppConfig, LoggingConfig, ServerConfig, UpstreamConfig};
use rust_api::date_validation::{parse_date, validate_dates, CalendarDate};
use rust_api::errors::{ApiError, ErrorResponse};
use rust_api::models::{AverageQuery, DailyAverage, PythonApiError, PythonApiResponse};
use rust_api::prices::{begin_average, finish_average, render, translate, GatewayReply, ReplyBody};
use rust_api::python_client::{
    call_python_api, classify_reply, decimal_string, upstream_payload, UpstreamOutcome,
    UpstreamReply,
};

fn query(start: &str, end: &str) -> AverageQuery {
    AverageQuery { start_date: start.to_string(), end_date: end.to_string() }
}

fn point(date: &str, price: f64) -> DailyAverage {
    DailyAverage {
        date: date.to_string(),
        average_price: serde_json::Number::from_f64(price).unwrap(),
    }
}

fn upstream_err(code: &str, message: &str) -> PythonApiError {
    PythonApiError { code: code.to_string(), message: message.to_string() }
}

fn replied(
    status: u16,
    error_body: Option<PythonApiError>,
    data_body: Option<Vec<DailyAverage>>,
) -> UpstreamOutcome {
    UpstreamOutcome::Replied(UpstreamReply { status, error_body, data_body })
}

fn assert_error(reply: &GatewayReply, status: u16, code: &str, message: &str) {
    assert_eq!(reply.status, status);
    match &reply.body {
        ReplyBody::Error(e) => {
            assert_eq!(e.code, code);
            assert_eq!(e.message, message);
        }
        ReplyBody::Data(_) => panic!("expected an error body"),
    }
}

fn data_of(reply: &GatewayReply) -> &Vec<DailyAverage> {
    match &reply.body {
        ReplyBody::Data(d) => d,
        ReplyBody::Error(e) => panic!("expected data, got {} {}", e.code, e.message),
    }
}

#[test]
fn parses_strict_dates() {
    assert_eq!(parse_date("2024-01-03"), Some(CalendarDate { year: 2024, month: 1, day: 3 }));
    assert_eq!(parse_date("2024-02-29"), Some(CalendarDate { year: 2024, month: 2, day: 29 }));
    assert_eq!(parse_date("2000-02-29"), Some(CalendarDate { year: 2000, month: 2, day: 29 }));
    assert_eq!(parse_date("0000-12-31"), Some(CalendarDate { year: 0, month: 12, day: 31 }));
}

#[test]
fn rejects_days_missing_from_the_calendar() {
    assert_eq!(parse_date("2023-02-29"), None);
    assert_eq!(parse_date("1900-02-29"), None);
    assert_eq!(parse_date("2024-04-31"), None);
    assert_eq!(parse_date("2024-13-01"), None);
    assert_eq!(parse_date("2024-00-10"), None);
    assert_eq!(parse_date("2024-01-00"), None);
}

#[test]
fn rejects_malformed_dates() {
    assert_eq!(parse_date(""), None);
    assert_eq!(parse_date("2024-1-01"), None);
    assert_eq!(parse_date("2024/01/01"), None);
    assert_eq!(parse_date("24-01-01"), None);
    assert_eq!(parse_date("2024-01-01 "), None);
    assert_eq!(parse_date("+2024-01-1"), None);
    assert_eq!(parse_date("abcd-ef-gh"), None);
    assert_eq!(parse_date("２０２４-01-01"), None);
}

#[test]
fn validate_dates_names_the_failing_field() {
    match validate_dates("2024-01-xx", "2024-01-01") {
        Err(ApiError::InvalidInput(m)) => assert_eq!(m, "Invalid start_date format"),
        other => panic!("unexpected {:?}", other),
    }
    match validate_dates("2024-01-01", "nope") {
        Err(ApiError::InvalidInput(m)) => assert_eq!(m, "Invalid end_date format"),
        other => panic!("unexpected {:?}", other),
    }
    match validate_dates("2024-02-01", "2024-01-01") {
        Err(ApiError::InvalidInput(m)) => {
            assert_eq!(m, "start_date must be before or equal to end_date")
        }
        other => panic!("unexpected {:?}", other),
    }
}

#[test]
fn validate_dates_accepts_equal_and_ordered_dates() {
    let d = CalendarDate { year: 2024, month: 5, day: 6 };
    assert_eq!(validate_dates("2024-05-06", "2024-05-06").unwrap(), (d, d));
    let (a, b) = validate_dates("2023-12-31", "2024-01-01").unwrap();
    assert_eq!(a, CalendarDate { year: 2023, month: 12, day: 31 });
    assert_eq!(b, CalendarDate { year: 2024, month: 1, day: 1 });
}

#[test]
fn reversed_range_is_rejected_without_a_call() {
    match begin_average(&query("2024-02-01", "2024-01-01")) {
        Err(reply) => assert_error(
            &reply,
            400,
            "INVALID_REQUEST",
            "start_date must be before or equal to end_date",
        ),
        Ok(_) => panic!("a reversed range must not reach the upstream service"),
    }
}

#[test]
fn malformed_dates_are_rejected_with_400() {
    match begin_average(&query("2024-02-30", "2024-03-01")) {
        Err(reply) => assert_error(&reply, 400, "INVALID_REQUEST", "Invalid start_date format"),
        Ok(_) => panic!("expected a rejection"),
    }
    match begin_average(&query("2024-02-01", "03/01/2024")) {
        Err(reply) => assert_error(&reply, 400, "INVALID_REQUEST", "Invalid end_date format"),
        Ok(_) => panic!("expected a rejection"),
    }
}

#[test]
fn valid_range_is_forwarded_unchanged() {
    let payload = begin_average(&query("2024-01-01", "2024-01-03")).unwrap();
    assert_eq!(payload.start_date, "2024-01-01");
    assert_eq!(payload.end_date, "2024-01-03");
    let p = upstream_payload("2020-02-29", "2020-03-01");
    assert_eq!(p.start_date, "2020-02-29");
    assert_eq!(p.end_date, "2020-03-01");
}

#[test]
fn success_reply_is_passed_through() {
    assert!(begin_average(&query("2024-01-01", "2024-01-03")).is_ok());
    let reply = finish_average(replied(200, None, Some(vec![point("2024-01-01", 10.5)])));
    assert_eq!(reply.status, 200);
    let data = data_of(&reply);
    assert_eq!(data.len(), 1);
    assert_eq!(data[0].date, "2024-01-01");
    assert_eq!(data[0].average_price.as_f64(), Some(10.5));
    assert_eq!(data[0].average_price.to_string(), "10.5");
}

#[test]
fn data_points_keep_their_order() {
    let points = vec![
        point("2024-01-03", 3.25),
        point("2024-01-01", 1.0),
        point("2024-01-02", 2.5),
    ];
    let reply = finish_average(replied(201, None, Some(points)));
    assert_eq!(reply.status, 200);
    let data = data_of(&reply);
    let dates: Vec<&str> = data.iter().map(|d| d.date.as_str()).collect();
    assert_eq!(dates, vec!["2024-01-03", "2024-01-01", "2024-01-02"]);
    let prices: Vec<f64> = data.iter().map(|d| d.average_price.as_f64().unwrap()).collect();
    assert_eq!(prices, vec![3.25, 1.0, 2.5]);
}

#[test]
fn empty_data_list_is_a_success() {
    let reply = finish_average(replied(200, None, Some(vec![])));
    assert_eq!(reply.status, 200);
    assert!(data_of(&reply).is_empty());
}

#[test]
fn repeated_requests_get_the_same_reply() {
    let first = finish_average(replied(200, None, Some(vec![point("2024-01-01", 10.5)])));
    let second = finish_average(replied(200, None, Some(vec![point("2024-01-01", 10.5)])));
    assert_eq!(first.status, second.status);
    assert_eq!(format!("{:?}", first), format!("{:?}", second));
}

#[test]
fn unreachable_upstream_is_a_gateway_timeout() {
    let reply = finish_average(UpstreamOutcome::Unreachable);
    assert_error(&reply, 504, "UPSTREAM_UNAVAILABLE", "Upstream service not reachable");
}

#[test]
fn client_failure_is_internal_and_hides_the_cause() {
    let reply = finish_average(UpstreamOutcome::ClientUnavailable("tls backend missing".to_string()));
    assert_error(&reply, 500, "INTERNAL_ERROR", "Internal server error");
}

#[test]
fn unreadable_body_is_an_upstream_error() {
    let reply = finish_average(UpstreamOutcome::BodyUnreadable);
    assert_error(&reply, 502, "UPSTREAM_ERROR", "Invalid upstream body");
}

#[test]
fn failure_status_with_error_body_keeps_its_code_and_message() {
    let reply = finish_average(replied(404, Some(upstream_err("NO_DATA", "no data for range")), None));
    assert_error(&reply, 502, "UPSTREAM_ERROR", "NO_DATA: no data for range");
}

#[test]
fn failure_status_without_error_body_names_the_status() {
    let reply = finish_average(replied(503, None, None));
    assert_error(&reply, 502, "UPSTREAM_ERROR", "Upstream returned status 503");
    let reply = finish_average(replied(302, None, Some(vec![point("2024-01-01", 1.0)])));
    assert_error(&reply, 502, "UPSTREAM_ERROR", "Upstream returned status 302");
}

#[test]
fn business_error_in_success_status_is_an_upstream_error() {
    let reply = finish_average(replied(200, Some(upstream_err("RANGE_TOO_LARGE", "max 31 days")), None));
    assert_error(&reply, 502, "UPSTREAM_ERROR", "RANGE_TOO_LARGE: max 31 days");
}

#[test]
fn data_shape_is_tried_before_error_shape() {
    let reply = finish_average(replied(
        200,
        Some(upstream_err("X", "y")),
        Some(vec![point("2024-01-01", 4.0)]),
    ));
    assert_eq!(reply.status, 200);
    assert_eq!(data_of(&reply).len(), 1);
}

#[test]
fn unparseable_success_body_is_an_upstream_error() {
    let reply = finish_average(replied(200, None, None));
    assert_error(
        &reply,
        502,
        "UPSTREAM_ERROR",
        "Cannot parse upstream JSON: body is neither a data list nor an error object",
    );
}

#[test]
fn classify_reply_reads_business_errors() {
    match classify_reply(UpstreamReply {
        status: 299,
        error_body: Some(upstream_err("E1", "bad")),
        data_body: None,
    }) {
        Ok(PythonApiResponse::BusinessError { code, message }) => {
            assert_eq!(code, "E1");
            assert_eq!(message, "bad");
        }
        other => panic!("unexpected {:?}", other),
    }
    match call_python_api(UpstreamOutcome::Unreachable) {
        Err(ApiError::UpstreamUnavailable) => {}
        other => panic!("unexpected {:?}", other),
    }
}

#[test]
fn translate_combines_code_and_message() {
    match translate(PythonApiResponse::BusinessError {
        code: "C".to_string(),
        message: "m".to_string(),
    }) {
        Err(ApiError::UpstreamError(m)) => assert_eq!(m, "C: m"),
        other => panic!("unexpected {:?}", other),
    }
}

#[test]
fn error_taxonomy_maps_status_and_code() {
    let cases = vec![
        (ApiError::InvalidInput("bad".to_string()), 400, "INVALID_REQUEST", "bad"),
        (ApiError::UpstreamUnavailable, 504, "UPSTREAM_UNAVAILABLE", "Upstream service not reachable"),
        (ApiError::UpstreamError("E: m".to_string()), 502, "UPSTREAM_ERROR", "E: m"),
        (ApiError::Internal("secret".to_string()), 500, "INTERNAL_ERROR", "Internal server error"),
    ];
    for (e, status, code, message) in cases {
        assert_eq!(e.status_code(), status);
        let body = e.error_response();
        assert_eq!(body.code, code);
        assert_eq!(body.message, message);
        assert_error(&render(Err(e)), status, code, message);
    }
}

#[test]
fn error_response_new_copies_its_arguments() {
    let e = ErrorResponse::new("INVALID_REQUEST", "x");
    assert_eq!(e.code, "INVALID_REQUEST");
    assert_eq!(e.message, "x");
}

#[test]
fn decimal_string_writes_digits() {
    assert_eq!(decimal_string(0), "0");
    assert_eq!(decimal_string(7), "7");
    assert_eq!(decimal_string(10), "10");
    assert_eq!(decimal_string(404), "404");
    assert_eq!(decimal_string(65535), "65535");
}

#[test]
fn upstream_url_appends_the_path() {
    let cfg = AppConfig {
        server: ServerConfig { bind_address: "127.0.0.1".to_string(), port: 8080 },
        upstream: UpstreamConfig {
            python_api_base_url: "http://localhost:8000".to_string(),
            timeout_ms: 3000,
        },
        logging: LoggingConfig { level: "info".to_string() },
    };
    assert_eq!(cfg.upstream_url(), "http://localhost:8000/internal/average-prices");
}
