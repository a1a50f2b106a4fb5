use chrono::DateTime;
use fcm::{
    classify, classify_response, parse_seconds, transport_failure, FcmError, FcmResponse,
    FixedDateTime, MessageResult, RetryAfter,
};

fn decode(body: &str) -> Option<FcmResponse> {
    let value: serde_json::Value = serde_json::from_str(body).ok()?;
    let text = |v: &serde_json::Value, key: &str| v.get(key).and_then(|x| x.as_str()).map(|s| s.to_string());
    let results = value.get("results").and_then(|r| r.as_array()).map(|items| {
        items
            .iter()
            .map(|item| MessageResult {
                message_id: text(item, "message_id"),
                registration_id: text(item, "registration_id"),
                error: text(item, "error"),
            })
            .collect()
    });
    Some(FcmResponse {
        message_id: value.get("message_id").and_then(|v| v.as_u64()),
        error: text(&value, "error"),
        multicast_id: value.get("multicast_id").and_then(|v| v.as_i64()),
        success: value.get("success").and_then(|v| v.as_u64()),
        failure: value.get("failure").and_then(|v| v.as_u64()),
        canonical_ids: value.get("canonical_ids").and_then(|v| v.as_u64()),
        results,
    })
}

fn expected_date(text: &str) -> FixedDateTime {
    let d = DateTime::parse_from_rfc2822(text).unwrap();
    FixedDateTime {
        timestamp: d.timestamp(),
        nanosecond: d.timestamp_subsec_nanos(),
        offset_seconds: d.offset().local_minus_utc(),
    }
}

#[test]
fn test_retry_after_from_seconds() {
    assert_eq!(Some(RetryAfter::Delay(420)), RetryAfter::from_str("420"));
}

#[test]
fn test_retry_after_from_date() {
    let date = "Sun, 06 Nov 1994 08:49:37 GMT";
    let retry_after = RetryAfter::from_str(date);

    assert_eq!(Some(RetryAfter::DateTime(expected_date(date))), retry_after,);
}

#[test]
fn retry_after_date_keeps_instant_and_offset() {
    let parsed = RetryAfter::from_str("Sun, 06 Nov 1994 08:49:37 GMT");
    assert_eq!(
        parsed,
        Some(RetryAfter::DateTime(FixedDateTime { timestamp: 784111777, nanosecond: 0, offset_seconds: 0 }))
    );
    let parsed = RetryAfter::from_str("Sun, 06 Nov 1994 10:49:37 +0200");
    assert_eq!(
        parsed,
        Some(RetryAfter::DateTime(FixedDateTime { timestamp: 784111777, nanosecond: 0, offset_seconds: 7200 }))
    );
}

#[test]
fn retry_after_garbage_gives_no_hint() {
    assert_eq!(RetryAfter::from_str("not-a-date"), None);
    assert_eq!(RetryAfter::from_str(""), None);
    assert_eq!(RetryAfter::from_str("12s"), None);
}

#[test]
fn retry_after_from_header_prefers_seconds() {
    let date = expected_date("Sun, 06 Nov 1994 08:49:37 GMT");
    assert_eq!(RetryAfter::from_header("7", Some(date)), Some(RetryAfter::Delay(7)));
    assert_eq!(RetryAfter::from_header("x", Some(date)), Some(RetryAfter::DateTime(date)));
    assert_eq!(RetryAfter::from_header("x", None), None);
}

#[test]
fn seconds_follow_integer_syntax() {
    assert_eq!(parse_seconds("0"), Some(0));
    assert_eq!(parse_seconds("+15"), Some(15));
    assert_eq!(parse_seconds("-3"), Some(-3));
    assert_eq!(parse_seconds("007"), Some(7));
    assert_eq!(parse_seconds("9223372036854775807"), Some(i64::MAX));
    assert_eq!(parse_seconds("-9223372036854775808"), Some(i64::MIN));
    assert_eq!(parse_seconds("9223372036854775808"), None);
    assert_eq!(parse_seconds("-9223372036854775809"), None);
    assert_eq!(parse_seconds("99999999999999999999x"), None);
    assert_eq!(parse_seconds("+"), None);
    assert_eq!(parse_seconds("-"), None);
    assert_eq!(parse_seconds(""), None);
    assert_eq!(parse_seconds(" 1"), None);
    assert_eq!(parse_seconds("1 "), None);
    assert_eq!(parse_seconds("\u{663}"), None);
}

#[test]
fn should_parse_error_as_unauthorized() {
    let result = classify(401, None, "Unauthorized", decode("Unauthorized"));

    assert!(result.is_err());
    assert_eq!(result.err().unwrap(), FcmError::Unauthorized);
}

#[test]
fn should_parse_error_as_invalid_message() {
    let result = classify(400, None, "INVALID_REGISTRATION", decode("INVALID_REGISTRATION"));

    assert!(result.is_err());
    assert_eq!(result.err().unwrap(), FcmError::InvalidMessage("INVALID_REGISTRATION".to_string()));
}

#[test]
fn should_parse_error_as_server_error() {
    let result = classify(500, None, "Internal Server Error", decode("Internal Server Error"));

    assert!(result.is_err());
    assert_eq!(result.err().unwrap(), FcmError::ServerError(None));
}

#[test]
fn should_parse_successful_response() {
    let response = r#"
        {
            "message_id": 2000000,
            "results": [
                {
                    "message_id": "200000",
                    "registration_id": "200000",
                    "error": "error"
                }
            ]
        }
    "#;
    let result = classify(200, None, response, decode(response));

    assert!(result.is_ok());

    let result = result.unwrap();

    assert_eq!(result.message_id.unwrap(), 2000000);

    let message_results = result.results.unwrap();

    assert_eq!(message_results.len(), 1);
    assert_eq!(
        message_results[0],
        MessageResult {
            message_id: Some("200000".to_string()),
            registration_id: Some("200000".to_string()),
            error: Some("error".to_string()),
        }
    );
}

#[test]
fn unauthorized_ignores_the_body() {
    let body = r#"{"error":"Unavailable"}"#;
    assert_eq!(classify(401, Some(RetryAfter::Delay(1)), body, decode(body)), Err(FcmError::Unauthorized));
}

#[test]
fn bad_request_without_body_has_fixed_detail() {
    assert_eq!(classify(400, None, "", None), Err(FcmError::InvalidMessage("Bad Request".to_string())));
}

#[test]
fn server_error_carries_the_header_hint() {
    assert_eq!(
        classify_response(500, Some("420"), "", None),
        Err(FcmError::ServerError(Some(RetryAfter::Delay(420))))
    );
    assert_eq!(
        classify_response(503, Some("Sun, 06 Nov 1994 08:49:37 GMT"), "oops", None),
        Err(FcmError::ServerError(Some(RetryAfter::DateTime(expected_date("Sun, 06 Nov 1994 08:49:37 GMT")))))
    );
    assert_eq!(classify_response(599, Some("soon"), "", None), Err(FcmError::ServerError(None)));
    assert_eq!(classify_response(502, None, "", None), Err(FcmError::ServerError(None)));
}

#[test]
fn masked_server_errors_in_a_success_answer() {
    let body = r#"{"error":"Unavailable"}"#;
    assert_eq!(
        classify_response(200, Some("30"), body, decode(body)),
        Err(FcmError::ServerError(Some(RetryAfter::Delay(30))))
    );
    let body = r#"{"error":"InternalServerError","multicast_id":-4}"#;
    assert_eq!(classify(200, None, body, decode(body)), Err(FcmError::ServerError(None)));
}

#[test]
fn other_top_level_error_is_still_a_success() {
    let body = r#"{"error":"NotRegistered","success":0,"failure":1}"#;
    let response = classify(200, None, body, decode(body)).unwrap();
    assert_eq!(response.error, Some("NotRegistered".to_string()));
    assert_eq!(response.failure, Some(1));
}

#[test]
fn undecodable_success_body_is_an_invalid_message() {
    assert_eq!(
        classify(200, None, "not json", decode("not json")),
        Err(FcmError::InvalidMessage("Unknown Error".to_string()))
    );
}

#[test]
fn unexpected_status_is_an_unknown_error() {
    assert_eq!(classify(302, None, "", None), Err(FcmError::InvalidMessage("Unknown Error".to_string())));
    assert_eq!(classify(404, None, "missing", None), Err(FcmError::InvalidMessage("Unknown Error".to_string())));
    assert_eq!(classify(600, None, "", None), Err(FcmError::InvalidMessage("Unknown Error".to_string())));
}

#[test]
fn transport_failure_has_no_hint() {
    assert_eq!(transport_failure(), FcmError::ServerError(None));
}
