//! Classification of the platform's responses into values and errors.
//!
//! The status code alone decides between success and failure. A success body
//! is decoded into the expected type (the decoding is handed in); a failure
//! becomes an API error carrying the status and a message taken from the body.
use vstd::prelude::*;

use crate::error::{Error, ErrorView};

verus! {

/// Message of an API error whose body names none and is empty.
pub const UNKNOWN_API_ERROR: &'static str = "Unknown API error";

/// What precedes the decoder's own message in an invalid-response error.
pub const PARSE_FAILURE_PREFIX: &'static str = "Failed to parse response: ";

/// The string member `message` of the JSON object that `text` holds, if `text`
/// parses as JSON and holds one.
pub uninterp spec fn json_message(text: Seq<char>) -> Option<Seq<char>>;

/// Relies on serde_json::from_str (into a `serde_json::Value`), read through
/// indexing by `"message"` and `Value::as_str`: the result is the string member
/// `message` of the parsed value, and depends on the text alone.
#[verifier::external_body]
fn message_member(text: &str) -> (r: Option<String>)
    ensures
        match r {
            Some(m) => json_message(text@) == Some(m@),
            None => json_message(text@) is None,
        },
{
    match serde_json::from_str::<serde_json::Value>(text) {
        Ok(v) => v["message"].as_str().map(|m| m.to_string()),
        Err(_) => None,
    }
}

/// The status codes that count as success.
pub open spec fn is_success_status(status: u16) -> bool {
    200 <= status <= 299
}

/// The message of the API error made from a failure body: a fixed text for
/// an empty body, else the body's JSON `message` member, else the body verbatim.
pub open spec fn api_message(body: Seq<char>) -> Seq<char> {
    if body.len() == 0 {
        UNKNOWN_API_ERROR@
    } else {
        match json_message(body) {
            Some(m) => m,
            None => body,
        }
    }
}

/// The error made from a response with status `status` and body `body`
/// when the status is not a success.
pub open spec fn is_api_failure(e: Error, status: u16, body: Seq<char>) -> bool {
    e matches Error::Api { code, message } && code == status && message@ == api_message(body)
}

/// The error made when a success body does not decode; `cause` is the
/// decoder's message.
pub open spec fn is_parse_failure(e: Error, cause: Seq<char>) -> bool {
    e matches Error::InvalidResponse(m) && m@ == PARSE_FAILURE_PREFIX@ + cause
}

/// `r` is the outcome of a JSON response with this status and body, when
/// decoding the body gave `decoded`: on a success status the decoded value,
/// or the invalid-response error for the decoder's message; on any other
/// status the API error for the status and body, whatever was decoded.
pub open spec fn classified<T>(
    status: u16,
    body: Seq<char>,
    decoded: Result<T, String>,
    r: Result<T, Error>,
) -> bool {
    if is_success_status(status) {
        match decoded {
            Ok(v) => r == Ok::<T, Error>(v),
            Err(cause) => r matches Err(e) && is_parse_failure(e, cause@),
        }
    } else {
        r matches Err(e) && is_api_failure(e, status, body)
    }
}

/// The abstract value of an outcome: the value, or the view of the error.
pub open spec fn outcome_view<T>(r: Result<T, Error>) -> Result<T, ErrorView> {
    match r {
        Ok(v) => Ok(v),
        Err(e) => Err(e@),
    }
}

/// The message of a failure: the body's `message` member when it has one;
/// otherwise the body verbatim (a body that is no JSON, or JSON without
/// such a member); "Unknown API error" for an empty body.
pub proof fn lemma_failure_message(body: Seq<char>)
    ensures
        body.len() > 0 ==> (json_message(body) matches Some(m) ==> api_message(body) == m),
        body.len() > 0 ==> (json_message(body) is None ==> api_message(body) == body),
        body.len() == 0 ==> api_message(body) == UNKNOWN_API_ERROR@,
{
}

/// The status alone decides the kind of outcome: an API error exactly when
/// the status is not a success, carrying that status whatever the body; a
/// success status gives the decoded value or an invalid-response error.
pub proof fn lemma_status_decides<T>(
    status: u16,
    body: Seq<char>,
    decoded: Result<T, String>,
    r: Result<T, Error>,
)
    requires
        classified(status, body, decoded, r),
    ensures
        (r matches Err(e) && e is Api) <==> !is_success_status(status),
        r matches Err(Error::Api { code, .. }) ==> code == status,
        is_success_status(status) ==> (r is Ok || (r matches Err(e) && e is InvalidResponse)),
{
}

/// Classifying the same response twice gives the same outcome: nothing is
/// kept from one call to the next.
pub proof fn lemma_same_response_same_outcome<T>(
    status: u16,
    body: Seq<char>,
    decoded: Result<T, String>,
    r1: Result<T, Error>,
    r2: Result<T, Error>,
)
    requires
        classified(status, body, decoded, r1),
        classified(status, body, decoded, r2),
    ensures
        outcome_view(r1) == outcome_view(r2),
{
}

/// Whether `status` is a success status (200 to 299).
pub fn is_success(status: u16) -> (r: bool)
    ensures
        r == is_success_status(status),
{
    200 <= status && status <= 299
}

/// The message of the API error for a failure body: "Unknown API error" for
/// an empty body, else its JSON `message` member when it has one, else the
/// body text itself.
pub fn api_error_message(body: &str) -> (r: String)
    ensures
        r@ == api_message(body@),
{
    if body.is_empty() {
        return UNKNOWN_API_ERROR.to_string();
    }
    match message_member(body) {
        Some(m) => m,
        None => body.to_string(),
    }
}

/// The API error for a response with status `status` and body `body`.
pub fn api_failure(status: u16, body: &str) -> (r: Error)
    ensures
        is_api_failure(r, status, body@),
{
    Error::api_error(status, api_error_message(body))
}

/// The invalid-response error for a success body that the decoder rejected
/// with message `cause`.
pub fn parse_failure(cause: &str) -> (r: Error)
    ensures
        is_parse_failure(r, cause@),
{
    let mut m = PARSE_FAILURE_PREFIX.to_string();
    m.append(cause);
    Error::invalid_response(m)
}

/// Classifies a JSON response. `decoded` is what decoding `body` into the
/// expected type gave (the value, or the decoder's message); it is used only
/// when `status` is a success.
pub fn handle_response<T>(status: u16, body: &str, decoded: Result<T, String>) -> (r: Result<T, Error>)
    ensures
        classified(status, body@, decoded, r),
{
    if is_success(status) {
        match decoded {
            Ok(v) => Ok(v),
            Err(cause) => Err(parse_failure(cause.as_str())),
        }
    } else {
        Err(api_failure(status, body))
    }
}

/// Classifies a binary download. `body` holds the raw bytes of the response
/// and `text` the same body read as text, which a failure reports.
pub fn handle_download(status: u16, body: Vec<u8>, text: &str) -> (r: Result<Vec<u8>, Error>)
    ensures
        is_success_status(status) ==> r == Ok::<Vec<u8>, Error>(body),
        !is_success_status(status) ==> (r matches Err(e) && is_api_failure(e, status, text@)),
{
    if is_success(status) {
        Ok(body)
    } else {
        Err(api_failure(status, text))
    }
}

} // verus!
