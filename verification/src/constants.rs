//! Library-specific constants.

use vstd::prelude::*;

verus! {

/// Base API endpoint for Smartsheet.
pub const API_ENDPOINT: &'static str = "https://api.smartsheet.com/2.0";

/// Environment variable the client reads the API token from, the same
/// variable name that the official SDKs use.
pub const ENV_VAR_NAME: &'static str = "SMARTSHEET_ACCESS_TOKEN";

} // verus!
