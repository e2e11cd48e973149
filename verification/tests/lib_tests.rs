use smartsheet_rs::auth::auth_token;
use smartsheet_rs::constants::{API_ENDPOINT, ENV_VAR_NAME};
use smartsheet_rs::utils::{is_default, u64_to_string};

#[test]
fn it_works() {
    let result = 2 + 2;
    assert_eq!(result, 4);
}

#[test]
fn test_auth_token_prefixes_bearer() {
    assert_eq!(auth_token("abc123"), "Bearer abc123");
    assert_eq!(auth_token(""), "Bearer ");
}

#[test]
fn test_u64_to_string_renders_decimal() {
    assert_eq!(u64_to_string(0), "0");
    assert_eq!(u64_to_string(7), "7");
    assert_eq!(u64_to_string(90), "90");
    assert_eq!(u64_to_string(54321), "54321");
    assert_eq!(u64_to_string(u64::MAX), "18446744073709551615");
}

#[test]
fn test_is_default_detects_the_id_sentinel() {
    assert!(is_default(&0));
    assert!(!is_default(&123));
}

#[test]
fn test_constants() {
    assert_eq!(API_ENDPOINT, "https://api.smartsheet.com/2.0");
    assert_eq!(ENV_VAR_NAME, "SMARTSHEET_ACCESS_TOKEN");
}
