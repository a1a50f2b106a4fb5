//! A client library for a push-notification delivery service: it builds
//! notification and message payloads, frames them as JSON, and interprets the
//! service's answer (status, retry hint and decoded body) as a typed result.
//!
//! The library makes no network call. [`prepare_request`] gives what a
//! transport must send, and [`classify_response`] turns what came back into
//! the caller's result. Retry policy, timeouts and the connection pool belong
//! to the caller.
mod text;

pub mod message;
pub mod notification;
pub mod request;
pub mod response;
pub mod retry_after;
pub mod wire;

pub use message::{Message, MessageBody, MessageBodyView, MessageBuilder, MessageView, Priority};
pub use notification::{Notification, NotificationBuilder, NotificationView};
pub use request::{HttpRequest, prepare_request};
pub use response::{
    FcmError, FcmResponse, FixedDateTime, MessageResult, RetryAfter, bad_request_detail, classified,
    classify, classify_response, hint_of, is_invalid_message, is_masked_server_error,
    lemma_masked_server_error, lemma_server_error_carries_hint, lemma_unauthorized_ignores_body,
    transport_failure,
};
/// The error type of the library under its short name.
pub use response::FcmError as Error;
pub use retry_after::{parse_seconds, retry_after_of, rfc2822_date, seconds_of};
pub use text::{list_view, opt_list_view, opt_str_view};
pub use wire::{
    WireField, body_fields, body_text, json_quoted, lemma_body_fields_by_key,
    lemma_fan_out_keeps_target, lemma_notification_fields_by_key, lookup, notification_fields,
    notification_text,
};
