//! HTTP status codes: which of them mean success, and how one is shown in a
//! failure report.

use vstd::prelude::*;
use vstd::string::*;
use crate::text::{decimal, u32_to_decimal};

verus! {

/// Whether `code` lies in the success class, 200 to 299.
pub open spec fn spec_is_success(code: u16) -> bool {
    200 <= code <= 299
}

/// Tells whether a response with status `code` carries the requested body.
pub fn is_success_status(code: u16) -> (success: bool)
    ensures
        success == spec_is_success(code),
{
    200 <= code && code <= 299
}

/// The reason phrase that the HTTP client shows after a status code: the
/// standard phrase where the code has one, a fixed placeholder where it has
/// none. Only meaningful for codes from 100 to 999.
pub uninterp spec fn reason_phrase(code: u16) -> Seq<char>;

/// How a status is shown: for a code that the HTTP client accepts, the code
/// in decimal, a space and the reason phrase; for any other number, the
/// number alone.
pub open spec fn status_text(code: u16) -> Seq<char> {
    if 100 <= code <= 999 {
        decimal(code as nat) + " "@ + reason_phrase(code)
    } else {
        decimal(code as nat)
    }
}

/// Calls `reqwest::StatusCode::from_u16` and shows the status with its
/// `Display` impl. Trusted: `from_u16` accepts exactly the codes from 100 to
/// 999, and the display of an accepted code is the code in decimal, one
/// space, and the canonical reason phrase (or the client's placeholder for a
/// code without one), which `reason_phrase` names.
#[verifier::external_body]
fn display_status(code: u16) -> (shown: Option<String>)
    ensures
        shown is Some <==> 100 <= code <= 999,
        shown matches Some(text) ==> text@ == decimal(code as nat) + " "@ + reason_phrase(code),
{
    match reqwest::StatusCode::from_u16(code) {
        Ok(status) => Some(status.to_string()),
        Err(_) => None,
    }
}

/// Shows a status for a failure report.
pub fn describe_status(code: u16) -> (text: String)
    ensures
        text@ == status_text(code),
{
    match display_status(code) {
        Some(text) => text,
        None => u32_to_decimal(code as u32),
    }
}

/// The report of a request that the server turned down.
pub open spec fn spec_rejection_message(table: Seq<char>, status: Seq<char>) -> Seq<char> {
    "Download error: "@ + table + ": "@ + status
}

/// Words the report of a request for `table` that was answered with the
/// status shown as `status`.
pub fn rejection_message(table: &str, status: &str) -> (message: String)
    ensures
        message@ == spec_rejection_message(table@, status@),
{
    let mut message = String::from_str("Download error: ");
    message.append(table);
    message.append(": ");
    message.append(status);
    message
}

} // verus!
