use vstd::prelude::*;

use crate::auth::AuthConfig;
use crate::error::{message_of, AppError};
use crate::text::{is_blank, is_blank_spec};

verus! {

/// How long an issued token stays valid, in hours.
pub const TOKEN_VALIDITY_HOURS: u64 = 12;

/// The same window in seconds.
pub const TOKEN_VALIDITY_SECS: i64 = 43200;

#[verifier::external_type_specification]
#[verifier::external_body]
pub struct ExJwtError(jsonwebtoken::errors::Error);

/// The token that HS256 signing of the claims `{sub, exp}` with `secret` gives.
pub uninterp spec fn signed_token(sub: Seq<char>, exp: int, secret: Seq<char>) -> Seq<char>;

/// Relies on `jsonwebtoken::encode` with the default header (HS256): the
/// signed token depends on the subject, the expiry and the secret alone, and
/// signing an HMAC key over a string-keyed map does not fail.
#[verifier::external_body]
fn sign_token(sub: &str, exp: i64, secret: &str) -> (r: Result<String, jsonwebtoken::errors::Error>)
    ensures
        r is Ok,
        r is Ok ==> r->Ok_0@ == signed_token(sub@, exp as int, secret@),
{
    let mut claims = serde_json::Map::new();
    claims.insert("sub".to_owned(), serde_json::Value::from(sub));
    claims.insert("exp".to_owned(), serde_json::Value::from(exp));
    let key = jsonwebtoken::EncodingKey::from_secret(secret.as_bytes());
    jsonwebtoken::encode(&jsonwebtoken::Header::default(), &claims, &key)
}

/// What a successful login hands back.
pub struct LoginResponse {
    pub token: String,
    pub expires_in_hours: u64,
}

/// The expiry of a token issued at `now`.
pub open spec fn expiry_at(now: int) -> int {
    now + TOKEN_VALIDITY_SECS
}

/// Any non-blank pair of credentials is accepted: there is no user store.
pub open spec fn credentials_accepted(username: Seq<char>, password: Seq<char>) -> bool {
    !is_blank_spec(username) && !is_blank_spec(password)
}

/// The message of the failure when no token can be issued.
pub open spec fn sign_failure() -> Seq<char> {
    "Failed to sign token"@
}

/// What a login at time `now` gives: refused when authentication is off,
/// unauthorized for blank credentials, else a token for `username` that
/// expires twelve hours after `now`.
pub open spec fn login_outcome(config: AuthConfig, username: Seq<char>, password: Seq<char>, now: i64, r: Result<
    LoginResponse,
    AppError,
>) -> bool {
    if config.secret is None {
        r is Err && r->Err_0 is BadRequest
    } else if !credentials_accepted(username, password) {
        r == Err::<LoginResponse, AppError>(AppError::Unauthorized)
    } else if now > i64::MAX - TOKEN_VALIDITY_SECS {
        r is Err && r->Err_0 is Internal && message_of(r->Err_0) == sign_failure()
    } else {
        &&& r is Ok
        &&& r->Ok_0.token@ == signed_token(username, expiry_at(now as int), config.secret->Some_0@)
        &&& r->Ok_0.expires_in_hours == TOKEN_VALIDITY_HOURS
    }
}

/// Issues a token for `username` at time `now` (seconds since the epoch).
pub fn login_at(config: &AuthConfig, username: &str, password: &str, now: i64) -> (r: Result<
    LoginResponse,
    AppError,
>)
    ensures
        login_outcome(*config, username@, password@, now, r),
{
    let secret = match &config.secret {
        None => {
            return Err(AppError::BadRequest("token authentication is not enabled on this server".to_owned()));
        },
        Some(s) => s,
    };
    if is_blank(username) || is_blank(password) {
        return Err(AppError::Unauthorized);
    }
    if now > i64::MAX - TOKEN_VALIDITY_SECS {
        return Err(AppError::Internal("Failed to sign token".to_owned()));
    }
    let exp = now + TOKEN_VALIDITY_SECS;
    match sign_token(username, exp, secret.as_str()) {
        Ok(token) => Ok(LoginResponse { token, expires_in_hours: TOKEN_VALIDITY_HOURS }),
        Err(_) => Err(AppError::Internal("Failed to sign token".to_owned())),
    }
}

} // verus!
