//! Sorting what one try came back with into the four cases that the retry
//! policy tells apart.

use vstd::prelude::*;

verus! {

/// What one try for a response amounts to.
#[derive(Clone, Copy, Debug, PartialEq, Eq, Structural)]
pub enum HttpResult {
    /// A response arrived whose status says success.
    Success,
    /// An error, other than file-not-found, that is not tried again.
    Fatal,
    /// The file could not be found: status 403 or 404.
    FileNotFound,
    /// An error, or a status, after which the request is tried again.
    Retryable,
}

/// Whether a status lies in the server-error range.
pub open spec fn is_server_error(status: u16) -> bool {
    500 <= status < 600
}

/// Whether a status says success.
pub open spec fn is_success(status: u16) -> bool {
    200 <= status < 300
}

/// The case of a status that does not say success: a server error is tried
/// again, 403 and 404 say that the file is not there, and anything else is
/// final.
pub open spec fn status_err_case(status: u16) -> HttpResult {
    if is_server_error(status) {
        HttpResult::Retryable
    } else if status == 403 || status == 404 {
        HttpResult::FileNotFound
    } else {
        HttpResult::Fatal
    }
}

/// The case of a response's status.
pub open spec fn response_case(status: u16) -> HttpResult {
    if is_success(status) {
        HttpResult::Success
    } else {
        status_err_case(status)
    }
}

/// `reqwest::StatusCode::is_server_error`, on the number of a status.
///
/// Trusted: the answer is `true` exactly for 500 to 599. A number that is
/// no status code at all (`StatusCode::from_u16` takes 100 to 999) is no
/// server error.
#[verifier::external_body]
fn status_is_server_error(status: u16) -> (r: bool)
    ensures
        r == is_server_error(status),
{
    match reqwest::StatusCode::from_u16(status) {
        Ok(code) => code.is_server_error(),
        Err(_) => false,
    }
}

/// `reqwest::StatusCode::is_success`, on the number of a status.
///
/// Trusted: the answer is `true` exactly for 200 to 299. A number that is
/// no status code at all (`StatusCode::from_u16` takes 100 to 999) is no
/// success.
#[verifier::external_body]
fn status_is_success(status: u16) -> (r: bool)
    ensures
        r == is_success(status),
{
    match reqwest::StatusCode::from_u16(status) {
        Ok(code) => code.is_success(),
        Err(_) => false,
    }
}

/// Sorts a status that does not say success by its number.
pub fn parse_status_err(status: u16) -> (r: HttpResult)
    ensures
        r == status_err_case(status),
{
    if status_is_server_error(status) {
        HttpResult::Retryable
    } else {
        match status {
            // Some services answer 403 where a file is missing.
            403 | 404 => HttpResult::FileNotFound,
            _ => HttpResult::Fatal,
        }
    }
}

/// Sorts the status of a response: success, or the case of its error.
pub fn parse_response(status: u16) -> (r: HttpResult)
    ensures
        r == response_case(status),
{
    if status_is_success(status) {
        HttpResult::Success
    } else {
        parse_status_err(status)
    }
}

} // verus!
