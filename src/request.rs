use vstd::prelude::*;
use vstd::string::StringExecFns;
use vstd::utf8::encode_utf8;

use crate::message::Message;
use crate::wire::body_text;

verus! {

/// Everything a transport needs to send a message: a `POST` to `url` with
/// these headers and this body.
#[derive(Debug, PartialEq, Eq)]
pub struct HttpRequest {
    pub url: String,
    pub content_type: String,
    pub authorization: String,
    pub content_length: usize,
    pub body: String,
}

/// Builds the request that sends `message`: JSON to the service's endpoint,
/// with the API key in the `Authorization` header as `key=<api key>` and the
/// body's length in bytes as its content length.
pub fn prepare_request(message: &Message) -> (r: HttpRequest)
    ensures
        r.url@ == "https://fcm.googleapis.com/fcm/send"@,
        r.content_type@ == "application/json"@,
        r.authorization@ == "key="@ + message.api_key@,
        r.body@ == body_text(message.body@),
        r.content_length == encode_utf8(r.body@).len() as usize,
{
    let body = message.body.to_json();
    let content_length = body.as_str().len();
    let mut authorization = "key=".to_string();
    authorization.append(message.api_key.as_str());
    HttpRequest {
        url: "https://fcm.googleapis.com/fcm/send".to_string(),
        content_type: "application/json".to_string(),
        authorization,
        content_length,
        body,
    }
}

} // verus!
