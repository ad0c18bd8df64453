//! What the panels know of a failed identity-api call, and how they word it.

use vstd::prelude::*;
use vstd::string::*;
use crate::text::{concat_strs, decimal};

verus! {

/// A failed identity-api call, as plain values: either the transport failed
/// (with the transport's own message), or the server answered with a
/// non-success HTTP status code.
#[derive(Clone, Debug, PartialEq, Eq)]
pub enum ClientError {
    Transport(String),
    Status(u16),
}

/// The reason phrase that `http::StatusCode`'s `Display` prints after the
/// numeric code: the canonical reason for `code`, or `<unknown status code>`.
pub uninterp spec fn status_reason(code: u16) -> Seq<char>;

/// An HTTP status code as `http` represents one (`100..=999`).
pub open spec fn is_status_code(code: u16) -> bool {
    100 <= code <= 999
}

/// A `ClientError` that can come out of the HTTP client: a status is always
/// a valid status code.
pub open spec fn client_error_ok(error: ClientError) -> bool {
    error matches ClientError::Status(code) ==> is_status_code(code)
}

/// The `Display` text of `http::StatusCode` for `code`: the decimal code, a
/// space, then its reason phrase.
pub open spec fn status_text(code: u16) -> Seq<char> {
    decimal(code as nat) + " "@ + status_reason(code)
}

/// The message shown for a failed call.
pub open spec fn error_message(error: ClientError) -> Seq<char> {
    match error {
        ClientError::Transport(message) => message@,
        ClientError::Status(code) => "identity-api responded with "@ + status_text(code),
    }
}

/// Renders a status code as `reqwest::StatusCode`'s `Display` does.
///
/// Calls `reqwest::StatusCode::from_u16` and `to_string` on the result. The
/// contract claims the text is the decimal code, one space and the reason
/// phrase (`http`'s `"{} {}"` format of the code and
/// `canonical_reason().unwrap_or("<unknown status code>")`); the reason phrase
/// table itself is only named, by `status_reason`.
#[verifier::external_body]
fn status_display(code: u16) -> (res: String)
    requires
        is_status_code(code),
    ensures
        res@ == decimal(code as nat) + " "@ + status_reason(code),
{
    match reqwest::StatusCode::from_u16(code) {
        Ok(status) => status.to_string(),
        Err(_) => String::new(),
    }
}

/// The message shown for a failed call: the transport's own message, or
/// `identity-api responded with <status>`.
pub fn describe_error(error: ClientError) -> (res: String)
    requires
        client_error_ok(error),
    ensures
        res@ == error_message(error),
{
    match error {
        ClientError::Transport(message) => message,
        ClientError::Status(code) => {
            let status = status_display(code);
            concat_strs("identity-api responded with ", status.as_str())
        },
    }
}

} // verus!
