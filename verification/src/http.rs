//! HTTP statuses: what counts as success, what is worth a retry, and how a
//! status is shown in a message.

use crate::text::{decimal, push_decimal};
use axum::http::StatusCode;
use vstd::prelude::*;
use vstd::string::StringExecFns;

verus! {

/// Success statuses are 200 to 299.
pub open spec fn success_status(status: u16) -> bool {
    200 <= status < 300
}

/// Statuses after which a request is worth sending again: 429, 408 and 500
/// to 599.
pub open spec fn retryable_status(status: u16) -> bool {
    status == 429 || status == 408 || 500 <= status < 600
}

/// Whether a request that was answered with `status` is sent again.
pub fn should_retry_status(status: u16) -> (r: bool)
    ensures
        r == retryable_status(status),
{
    status == 429 || status == 408 || (500 <= status && status < 600)
}

/// Whether `status` reports success.
pub fn is_success_status(status: u16) -> (r: bool)
    ensures
        r == success_status(status),
{
    200 <= status && status < 300
}

/// The standard reason phrase of the status `code`, where it has one.
pub uninterp spec fn canonical_reason(code: u16) -> Option<Seq<char>>;

/// `http::StatusCode::canonical_reason`, for the status that
/// `http::StatusCode::from_u16` makes of `code`: the standard reason phrase;
/// none for a code without one and for a number that is no status code.
#[verifier::external_body]
fn status_reason(code: u16) -> (r: Option<&'static str>)
    ensures
        match canonical_reason(code) {
            Some(phrase) => r matches Some(text) && text@ == phrase,
            None => r is None,
        },
{
    match StatusCode::from_u16(code) {
        Ok(status) => status.canonical_reason(),
        Err(_) => None,
    }
}

/// A status as it is shown: its number, a space and its reason phrase.
pub open spec fn status_text(code: u16) -> Seq<char> {
    decimal(code as nat) + " "@ + match canonical_reason(code) {
        Some(phrase) => phrase,
        None => "<unknown status code>"@,
    }
}

/// A status shown with the reason phrase `reason`.
pub open spec fn status_text_with(code: u16, reason: Option<&str>) -> Seq<char> {
    decimal(code as nat) + " "@ + match reason {
        Some(phrase) => phrase@,
        None => "<unknown status code>"@,
    }
}

/// Shows a status with the reason phrase `reason`.
pub fn show_status_with(code: u16, reason: Option<&str>) -> (text: String)
    ensures
        text@ == status_text_with(code, reason),
{
    let mut text = String::new();
    push_decimal(&mut text, code as u64);
    assert(text@ == decimal(code as nat));
    text.append(" ");
    match reason {
        Some(phrase) => text.append(phrase),
        None => text.append("<unknown status code>"),
    }
    text
}

/// Shows a status: its number, a space and its standard reason phrase.
pub fn show_status(code: u16) -> (text: String)
    ensures
        text@ == status_text(code),
{
    let reason: Option<&'static str> = status_reason(code);
    show_status_with(code, reason)
}

/// The words for an answer that reports failure: what failed, a colon, the
/// status as it is shown, and the body of the answer.
pub open spec fn failure_text(context: Seq<char>, status: Seq<char>, body: Seq<char>) -> Seq<
    char,
> {
    context + ": "@ + status + " "@ + body
}

/// Words an answer that reports failure, with the status shown as `status`.
pub fn describe_failure_with(context: &str, status: &str, body: &str) -> (text: String)
    ensures
        text@ == failure_text(context@, status@, body@),
{
    let mut text = String::new();
    text.append(context);
    text.append(": ");
    text.append(status);
    text.append(" ");
    text.append(body);
    text
}

/// Words an answer that reports failure with the status `status`.
pub fn describe_failure(context: &str, status: u16, body: &str) -> (text: String)
    ensures
        text@ == failure_text(context@, status_text(status), body@),
{
    let shown: String = show_status(status);
    describe_failure_with(context, shown.as_str(), body)
}

} // verus!
