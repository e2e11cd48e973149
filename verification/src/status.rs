//! Utilities to validate a response's *status code*.

use crate::models::error::RequestError;
use crate::utils::{spec_dec, u64_to_string};
use vstd::prelude::*;
use vstd::string::StringExecFns;

verus! {

/// Whether a status code signals a client error.
pub open spec fn is_client_error(status: u16) -> bool {
    400 <= status < 500
}

/// Whether a status code signals a server error.
pub open spec fn is_server_error(status: u16) -> bool {
    500 <= status < 600
}

/// The reason line of a failed request: the status code, the error
/// class, the status's canonical reason, and the request URL.
pub open spec fn spec_status_reason(status: u16, canonical: Seq<char>, url: Seq<char>) -> Seq<
    char,
> {
    spec_dec(status as nat) + (if is_client_error(status) {
        " Client Error: "@
    } else {
        " Server Error: "@
    }) + canonical + " for url: "@ + url
}

/// Check the status of a response and raise a [`RequestError`] if the
/// request was not a success: a status code between 400 and 600 is a
/// client error or a server error. A code between 200 and 400 passes —
/// this is **not** a check for `200 OK` alone.
///
/// The caller passes the status's canonical reason phrase and receives
/// the error with its `message` and `error` details still unset, to be
/// filled from the response body.
pub fn raise_for_status(request_url: &str, status: u16, canonical_reason: &str) -> (r: Result<
    (),
    RequestError,
>)
    ensures
        match r {
            Ok(_) => !is_client_error(status) && !is_server_error(status),
            Err(e) => {
                &&& is_client_error(status) || is_server_error(status)
                &&& e.status == status
                &&& e.reason@ == spec_status_reason(status, canonical_reason@, request_url@)
                &&& e.message is None
                &&& e.error is None
            },
        },
{
    if status < 400 || status >= 600 {
        return Ok(());
    }
    let mut reason: String = u64_to_string(status as u64);
    if status < 500 {
        reason.append(" Client Error: ");
    } else {
        reason.append(" Server Error: ");
    }
    reason.append(canonical_reason);
    reason.append(" for url: ");
    reason.append(request_url);
    Err(RequestError::new(status, reason))
}

} // verus!
