use vstd::prelude::*;

use crate::errors::CredentialError;
use crate::json::{json_doc_of, object_field, parse_json_model, spec_object_field, JsonValue};

verus! {

/// Safety margin in milliseconds: a token already counts as expired when its
/// expiry lies this close ahead of now.
pub const TOKEN_EXPIRY_MARGIN_MS: u64 = 30000;

/// An access token with its expiry, read fresh from disk every cycle so that
/// a refresh by another process is picked up without a restart.
#[derive(Debug)]
pub struct TokenInfo {
    pub access_token: String,
    /// Expiry instant in epoch milliseconds.
    pub expires_at: u64,
}

/// Whether a token expiring at `expires_at` is unusable at `now_ms`: its
/// expiry lies within the safety margin of now, or behind it.
pub open spec fn spec_token_expired(expires_at: u64, now_ms: u64) -> bool {
    now_ms + TOKEN_EXPIRY_MARGIN_MS >= expires_at
}

/// Compares a token's expiry against the current time plus the safety
/// margin.
pub fn is_token_expired(expires_at: u64, now_ms: u64) -> (expired: bool)
    ensures
        expired == spec_token_expired(expires_at, now_ms),
{
    expires_at <= TOKEN_EXPIRY_MARGIN_MS || now_ms >= expires_at - TOKEN_EXPIRY_MARGIN_MS
}

/// The token and expiry a credential text carries, where it has the expected
/// shape: a JSON object whose `claudeAiOauth` member is an object holding a
/// string `accessToken` and an unsigned `expiresAt`. Any other shape carries
/// nothing.
pub open spec fn spec_credential_fields(doc: Option<JsonValue>) -> Option<(Seq<char>, u64)> {
    match doc {
        Some(JsonValue::Object(root)) => match spec_object_field(root@, "claudeAiOauth"@) {
            Some(JsonValue::Object(oauth)) => match (
                spec_object_field(oauth@, "accessToken"@),
                spec_object_field(oauth@, "expiresAt"@),
            ) {
                (Some(JsonValue::Text(token)), Some(JsonValue::Unsigned(expiry))) => Some(
                    (token@, expiry),
                ),
                _ => None,
            },
            _ => None,
        },
        _ => None,
    }
}

/// Decodes the credential store's contents. Succeeds exactly on texts whose
/// JSON model carries the credential shape, copying the fields verbatim; any
/// other content is malformed. Reading the store at all is the caller's
/// concern, so `Unreadable` never arises here.
pub fn parse_token_info(content: &str) -> (r: Result<TokenInfo, CredentialError>)
    ensures
        r matches Ok(t) ==> spec_credential_fields(json_doc_of(content@)) matches Some(f)
            && t.access_token@ == f.0 && t.expires_at == f.1,
        r matches Err(e) ==> e == CredentialError::Malformed && spec_credential_fields(
            json_doc_of(content@),
        ) is None,
{
    let doc = match parse_json_model(content) {
        Some(d) => d,
        None => {
            return Err(CredentialError::Malformed);
        },
    };
    let root = match &doc {
        JsonValue::Object(entries) => entries,
        _ => {
            return Err(CredentialError::Malformed);
        },
    };
    let oauth = match object_field(root, "claudeAiOauth") {
        Some(JsonValue::Object(entries)) => entries,
        _ => {
            return Err(CredentialError::Malformed);
        },
    };
    let access_token = match object_field(oauth, "accessToken") {
        Some(JsonValue::Text(s)) => s.clone(),
        _ => {
            return Err(CredentialError::Malformed);
        },
    };
    let expires_at = match object_field(oauth, "expiresAt") {
        Some(JsonValue::Unsigned(n)) => *n,
        _ => {
            return Err(CredentialError::Malformed);
        },
    };
    Ok(TokenInfo { access_token, expires_at })
}

} // verus!
