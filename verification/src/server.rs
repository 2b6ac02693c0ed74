//! What the HTTP routes answer.

use vstd::prelude::*;
use vstd::string::*;

verus! {

/// The reason phrase that the `http` crate has for a status, if it has one.
pub uninterp spec fn canonical_reason(status: u16) -> Option<Seq<char>>;

/// The text of an optional string.
pub open spec fn spec_text(text: Option<String>) -> Option<Seq<char>> {
    match text {
        Some(text) => Some(text@),
        None => None,
    }
}

/// Looks a status up with `http::StatusCode::from_u16` and
/// `StatusCode::canonical_reason`. A number that is no status code has no
/// phrase: `from_u16` takes 100..=999 only. The crate's table gives the
/// three phrases that are stated here.
#[verifier::external_body]
fn reason_phrase(status: u16) -> (reason: Option<String>)
    ensures
        spec_text(reason) == canonical_reason(status),
        status < 100 || status > 999 ==> reason is None,
        status == 400 ==> spec_text(reason) == Some("Bad Request"@),
        status == 404 ==> spec_text(reason) == Some("Not Found"@),
        status == 500 ==> spec_text(reason) == Some("Internal Server Error"@),
{
    match axum::http::StatusCode::from_u16(status) {
        Ok(code) => code.canonical_reason().map(String::from),
        Err(_) => None,
    }
}

/// The body that an error is answered with.
#[derive(Debug, Clone)]
pub struct ErrorResponse {
    pub reason: String,
    pub status: u16,
}

/// The reason that stands in the body for a status: its phrase, or nothing.
pub open spec fn spec_reason(phrase: Option<Seq<char>>) -> Seq<char> {
    match phrase {
        Some(phrase) => phrase,
        None => Seq::empty(),
    }
}

/// The status of a request that was served.
pub const OK: u16 = 200;

/// The status of a request that is refused as it stands.
pub const BAD_REQUEST: u16 = 400;

/// The status of a path that no route matches.
pub const NOT_FOUND: u16 = 404;

/// The status of a request that took too long.
pub const REQUEST_TIMEOUT: u16 = 408;

/// The status of a failure on the server's side.
pub const INTERNAL_SERVER_ERROR: u16 = 500;

impl ErrorResponse {
    /// The body for a status whose phrase was looked up.
    pub fn with_reason(status: u16, phrase: Option<String>) -> (response: ErrorResponse)
        ensures
            response.status == status,
            response.reason@ == spec_reason(spec_text(phrase)),
    {
        match phrase {
            Some(reason) => ErrorResponse { reason, status },
            None => ErrorResponse { reason: String::new(), status },
        }
    }

    /// The body for a status: the status itself and its reason phrase, which
    /// is empty where the status has none.
    pub fn new(status: u16) -> (response: ErrorResponse)
        ensures
            response.status == status,
            response.reason@ == spec_reason(canonical_reason(status)),
            status < 100 || status > 999 ==> response.reason@ == Seq::<char>::empty(),
            status == 400 ==> response.reason@ == "Bad Request"@,
            status == 404 ==> response.reason@ == "Not Found"@,
            status == 500 ==> response.reason@ == "Internal Server Error"@,
    {
        ErrorResponse::with_reason(status, reason_phrase(status))
    }
}

/// The greeting for `name`.
pub fn hello(name: &str) -> (greeting: String)
    ensures
        greeting@ == "Hello, "@ + name@ + "!"@,
{
    String::from_str("Hello, ").concat(name).concat("!")
}

/// The answer to a path that no route matches.
pub fn not_found() -> (answer: (u16, ErrorResponse))
    ensures
        answer.0 == NOT_FOUND,
        answer.1.status == NOT_FOUND,
        answer.1.reason@ == "Not Found"@,
{
    (NOT_FOUND, ErrorResponse::new(NOT_FOUND))
}

/// The text that goes with an error of a layer that is no timeout.
pub open spec fn spec_unhandled(error: Seq<char>) -> Seq<char> {
    "Unhandled internal error: "@ + error
}

/// The answer to an error of a layer: a timeout is answered with the
/// status for it alone, every other error with the status of an internal
/// error and the error's text.
pub fn handle_error(timed_out: bool, error: &str) -> (answer: Result<u16, (u16, String)>)
    ensures
        timed_out ==> answer == Ok::<u16, (u16, String)>(REQUEST_TIMEOUT),
        !timed_out ==> (answer matches Err(failure) && failure.0 == INTERNAL_SERVER_ERROR
            && failure.1@ == spec_unhandled(error@)),
{
    if timed_out {
        Ok(REQUEST_TIMEOUT)
    } else {
        Err((INTERNAL_SERVER_ERROR, String::from_str("Unhandled internal error: ").concat(error)))
    }
}

} // verus!
