//! Authentication helper utilities.

use vstd::prelude::*;
use vstd::string::StringExecFns;

verus! {

/// Returns the value to set in the `AUTHORIZATION` header for a request.
pub fn auth_token(token: &str) -> (bearer: String)
    ensures
        bearer@ == "Bearer "@ + token@,
{
    let mut bearer_token = String::new();
    bearer_token.append("Bearer ");
    bearer_token.append(token);
    bearer_token
}

} // verus!
