use vstd::prelude::*;

use crate::retry_after::{retry_after_of, rfc2822_date};

verus! {

/// The outcome of one message as the service reports it.
#[derive(Debug, PartialEq, Eq)]
pub struct MessageResult {
    pub message_id: Option<String>,
    pub registration_id: Option<String>,
    pub error: Option<String>,
}

/// The decoded body of the service's answer. A key missing from the body is
/// `None`; keys the library does not know are ignored.
#[derive(Debug, PartialEq, Eq)]
pub struct FcmResponse {
    pub message_id: Option<u64>,
    pub error: Option<String>,
    pub multicast_id: Option<i64>,
    pub success: Option<u64>,
    pub failure: Option<u64>,
    pub canonical_ids: Option<u64>,
    pub results: Option<Vec<MessageResult>>,
}

/// A moment in time as read from an RFC 2822 date: seconds since the Unix
/// epoch (UTC), the sub-second nanoseconds, and the offset from UTC, in
/// seconds, that the date was written in.
#[derive(Debug, Clone, Copy, PartialEq, Eq, Structural)]
pub struct FixedDateTime {
    pub timestamp: i64,
    pub nanosecond: u32,
    pub offset_seconds: i32,
}

/// When the service allows the next attempt.
#[derive(Debug, Clone, Copy, PartialEq, Eq, Structural)]
pub enum RetryAfter {
    /// A delay in seconds, counted from the response.
    Delay(i64),
    /// An absolute moment.
    DateTime(FixedDateTime),
}

/// The errors a caller can receive.
#[derive(Debug, PartialEq, Eq)]
pub enum FcmError {
    /// The API key was refused; a retry needs another key.
    Unauthorized,
    /// The message or the answer to it was malformed; the text says why.
    InvalidMessage(String),
    /// The service is in trouble; retrying later may succeed, no earlier
    /// than the hint when one was given.
    ServerError(Option<RetryAfter>),
}

/// Whether the top-level `error` of a successful answer names a failure of
/// the service itself, which the caller should treat as a server error.
pub open spec fn is_masked_server_error(error: Option<String>) -> bool {
    match error {
        Some(e) => e@ == "Unavailable"@ || e@ == "InternalServerError"@,
        None => false,
    }
}

/// The detail of an invalid-message error for a `400 Bad Request` answer:
/// the body text, or "Bad Request" when the body is empty.
pub open spec fn bad_request_detail(body: Seq<char>) -> Seq<char> {
    if body.len() == 0 {
        "Bad Request"@
    } else {
        body
    }
}

/// Whether `r` is an invalid-message error with detail `text`.
pub open spec fn is_invalid_message(r: Result<FcmResponse, FcmError>, text: Seq<char>) -> bool {
    match r {
        Err(FcmError::InvalidMessage(t)) => t@ == text,
        _ => false,
    }
}

/// The result that an answer with `status`, retry hint `hint`, body text
/// `body` and body decoding `decoded` (`None` when the body is not a valid
/// response document) stands for.
pub open spec fn classified(
    status: u16,
    hint: Option<RetryAfter>,
    body: Seq<char>,
    decoded: Option<FcmResponse>,
    r: Result<FcmResponse, FcmError>,
) -> bool {
    if status == 200 {
        match decoded {
            Some(d) => if is_masked_server_error(d.error) {
                r == Err::<FcmResponse, FcmError>(FcmError::ServerError(hint))
            } else {
                r == Ok::<FcmResponse, FcmError>(d)
            },
            None => is_invalid_message(r, "Unknown Error"@),
        }
    } else if status == 401 {
        r == Err::<FcmResponse, FcmError>(FcmError::Unauthorized)
    } else if status == 400 {
        is_invalid_message(r, bad_request_detail(body))
    } else if 500 <= status && status <= 599 {
        r == Err::<FcmResponse, FcmError>(FcmError::ServerError(hint))
    } else {
        is_invalid_message(r, "Unknown Error"@)
    }
}

/// The retry hint carried by an optional retry-after header value.
pub open spec fn hint_of(retry_after: Option<Seq<char>>) -> Option<RetryAfter> {
    match retry_after {
        Some(h) => retry_after_of(h, rfc2822_date(h)),
        None => None,
    }
}

/// A `401` answer is a refused key whatever its body, its decoding and its
/// retry hint.
pub proof fn lemma_unauthorized_ignores_body(
    hint: Option<RetryAfter>,
    body: Seq<char>,
    decoded: Option<FcmResponse>,
    r: Result<FcmResponse, FcmError>,
)
    requires
        classified(401, hint, body, decoded, r),
    ensures
        r == Err::<FcmResponse, FcmError>(FcmError::Unauthorized),
{
}

/// A `5xx` answer is a server error that carries the hint read from the
/// retry-after header, if there was one, whatever the body.
pub proof fn lemma_server_error_carries_hint(
    status: u16,
    retry_after: Option<Seq<char>>,
    body: Seq<char>,
    decoded: Option<FcmResponse>,
    r: Result<FcmResponse, FcmError>,
)
    requires
        500 <= status <= 599,
        classified(status, hint_of(retry_after), body, decoded, r),
    ensures
        r == Err::<FcmResponse, FcmError>(FcmError::ServerError(hint_of(retry_after))),
        retry_after is None ==> r == Err::<FcmResponse, FcmError>(FcmError::ServerError(None)),
{
}

/// A `200` answer whose decoded top-level `error` is `Unavailable` or
/// `InternalServerError` is a server error with the header's hint, not a
/// success.
pub proof fn lemma_masked_server_error(
    hint: Option<RetryAfter>,
    body: Seq<char>,
    d: FcmResponse,
    r: Result<FcmResponse, FcmError>,
)
    requires
        d.error matches Some(e) && (e@ == "Unavailable"@ || e@ == "InternalServerError"@),
        classified(200, hint, body, Some(d), r),
    ensures
        r == Err::<FcmResponse, FcmError>(FcmError::ServerError(hint)),
        !(r is Ok),
{
}

fn names_server_failure(error: &Option<String>) -> (r: bool)
    ensures
        r == is_masked_server_error(*error),
{
    match error {
        Some(e) => {
            let unavailable = "Unavailable".to_string();
            let internal = "InternalServerError".to_string();
            *e == unavailable || *e == internal
        },
        None => false,
    }
}

/// Maps an answer of the service to the caller's result, given the retry hint
/// already read from its headers, the body text, and the body decoded as a
/// response document (`None` when it is not one).
///
/// A `200` answer whose `error` is `Unavailable` or `InternalServerError` is a
/// server error all the same; `401` is a refused key; `400` is an invalid
/// message whose detail is the body text; any other `5xx` is a server error;
/// anything else is an invalid message.
pub fn classify(
    status: u16,
    hint: Option<RetryAfter>,
    body: &str,
    decoded: Option<FcmResponse>,
) -> (r: Result<FcmResponse, FcmError>)
    ensures
        classified(status, hint, body@, decoded, r),
{
    if status == 200 {
        match decoded {
            Some(d) => {
                if names_server_failure(&d.error) {
                    Err(FcmError::ServerError(hint))
                } else {
                    Ok(d)
                }
            },
            None => Err(FcmError::InvalidMessage("Unknown Error".to_string())),
        }
    } else if status == 401 {
        Err(FcmError::Unauthorized)
    } else if status == 400 {
        if body.unicode_len() == 0 {
            Err(FcmError::InvalidMessage("Bad Request".to_string()))
        } else {
            Err(FcmError::InvalidMessage(body.to_string()))
        }
    } else if 500 <= status && status <= 599 {
        Err(FcmError::ServerError(hint))
    } else {
        Err(FcmError::InvalidMessage("Unknown Error".to_string()))
    }
}

/// Maps an answer of the service to the caller's result, reading the retry
/// hint from the raw retry-after header value when there is one. A header
/// that is neither a delay nor a date gives no hint.
pub fn classify_response(
    status: u16,
    retry_after: Option<&str>,
    body: &str,
    decoded: Option<FcmResponse>,
) -> (r: Result<FcmResponse, FcmError>)
    ensures
        classified(
            status,
            hint_of(
                match retry_after {
                    Some(h) => Some(h@),
                    None => None,
                },
            ),
            body@,
            decoded,
            r,
        ),
{
    let hint = match retry_after {
        Some(h) => RetryAfter::from_str(h),
        None => None,
    };
    classify(status, hint, body, decoded)
}

/// The error for a request that got no answer at all (refused connection,
/// TLS failure, timeout): a server error without a retry hint.
pub fn transport_failure() -> (e: FcmError)
    ensures
        e == FcmError::ServerError(None),
{
    FcmError::ServerError(None)
}

} // verus!
