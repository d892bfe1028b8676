//! What to make of the answer of the access point to a request for its statistics.

use vstd::prelude::*;

verus! {

/// Whether an HTTP status code reports success: the codes from 200 up to, and without, 300.
pub open spec fn is_success(status: u16) -> bool {
    200 <= status < 300
}

/// Says whether an HTTP status code reports success, so that the body is worth reading.
pub fn response_is_success(status: u16) -> (r: bool)
    ensures
        r == is_success(status),
{
    200 <= status && status < 300
}

/// The text of the error for a body that could not be read.
pub open spec fn body_error_text(cause: Seq<char>) -> Seq<char> {
    "Failed to read response body: "@ + cause
}

/// The text of the error for a status that does not report success.
pub open spec fn status_error_text(status_text: Seq<char>) -> Seq<char> {
    "Failed to get a successful response: "@ + status_text
}

/// Turns the answer of the access point into its body or an error text. `status_text` is the
/// status as it is shown to a reader; `body` is the body, or the cause for which it could not
/// be read, and is looked at only where the status reports success.
pub fn handle_ap_response(status: u16, status_text: &str, body: Result<String, String>) -> (r:
    Result<String, String>)
    ensures
        r is Ok <==> is_success(status) && body is Ok,
        r matches Ok(text) ==> body == Ok::<String, String>(text),
        r matches Err(text) ==> text@ == if is_success(status) {
            body_error_text(body->Err_0@)
        } else {
            status_error_text(status_text@)
        },
{
    if response_is_success(status) {
        match body {
            Ok(text) => Ok(text),
            Err(cause) => {
                let mut text = String::from_str("Failed to read response body: ");
                text.append(cause.as_str());
                Err(text)
            },
        }
    } else {
        let mut text = String::from_str("Failed to get a successful response: ");
        text.append(status_text);
        Err(text)
    }
}

} // verus!
