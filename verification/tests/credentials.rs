use usage_dashboard::credentials::{
    is_token_expired, parse_token_info, TOKEN_EXPIRY_MARGIN_MS,
};
use usage_dashboard::errors::CredentialError;

#[test]
fn margin_constant_is_thirty_seconds() {
    assert_eq!(TOKEN_EXPIRY_MARGIN_MS, 30_000);
}

#[test]
fn well_formed_store_yields_token_and_expiry() {
    let content = r#"{
        "claudeAiOauth": {
            "accessToken": "tok-123",
            "refreshToken": "ref-456",
            "expiresAt": 1234567890123
        }
    }"#;
    let info = parse_token_info(content).expect("well-formed credentials must parse");
    assert_eq!(info.access_token, "tok-123");
    assert_eq!(info.expires_at, 1234567890123);
}

#[test]
fn extra_fields_are_tolerated() {
    let content = r#"{
        "claudeAiOauth": {
            "accessToken": "t",
            "expiresAt": 7,
            "scopes": ["a", "b"]
        },
        "other": 1
    }"#;
    let info = parse_token_info(content).expect("unknown fields must not break parsing");
    assert_eq!(info.access_token, "t");
    assert_eq!(info.expires_at, 7);
}

#[test]
fn syntax_error_is_malformed() {
    let r = parse_token_info("not json at all");
    assert_eq!(r.unwrap_err(), CredentialError::Malformed);
}

#[test]
fn missing_oauth_object_is_malformed() {
    let r = parse_token_info(r#"{"somethingElse": {}}"#);
    assert_eq!(r.unwrap_err(), CredentialError::Malformed);
}

#[test]
fn missing_access_token_is_malformed() {
    let r = parse_token_info(r#"{"claudeAiOauth": {"expiresAt": 7}}"#);
    assert_eq!(r.unwrap_err(), CredentialError::Malformed);
}

#[test]
fn non_string_access_token_is_malformed() {
    let r = parse_token_info(r#"{"claudeAiOauth": {"accessToken": 5, "expiresAt": 7}}"#);
    assert_eq!(r.unwrap_err(), CredentialError::Malformed);
}

#[test]
fn missing_expiry_is_malformed() {
    let r = parse_token_info(r#"{"claudeAiOauth": {"accessToken": "t"}}"#);
    assert_eq!(r.unwrap_err(), CredentialError::Malformed);
}

#[test]
fn fractional_expiry_is_malformed() {
    let r = parse_token_info(r#"{"claudeAiOauth": {"accessToken": "t", "expiresAt": 12.5}}"#);
    assert_eq!(r.unwrap_err(), CredentialError::Malformed);
}

#[test]
fn negative_expiry_is_malformed() {
    let r = parse_token_info(r#"{"claudeAiOauth": {"accessToken": "t", "expiresAt": -5}}"#);
    assert_eq!(r.unwrap_err(), CredentialError::Malformed);
}

#[test]
fn expiry_far_ahead_is_not_expired() {
    let now_ms: u64 = 1_000_000_000;
    assert!(!is_token_expired(now_ms + 40_000, now_ms));
}

#[test]
fn expiry_inside_the_margin_counts_as_expired() {
    let now_ms: u64 = 1_000_000_000;
    assert!(is_token_expired(now_ms + 10_000, now_ms));
}

#[test]
fn expiry_exactly_at_the_margin_counts_as_expired() {
    let now_ms: u64 = 1_000_000_000;
    assert!(is_token_expired(now_ms + TOKEN_EXPIRY_MARGIN_MS, now_ms));
    assert!(!is_token_expired(now_ms + TOKEN_EXPIRY_MARGIN_MS + 1, now_ms));
}

#[test]
fn past_expiry_counts_as_expired() {
    assert!(is_token_expired(5, 1_000_000_000));
    assert!(is_token_expired(0, 0));
}
