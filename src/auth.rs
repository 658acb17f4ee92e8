use vstd::prelude::*;

use crate::error::AppError;
use crate::token::signed_token;

verus! {

/// The request methods authentication tells apart.
#[derive(Debug, Clone, Copy, PartialEq, Eq, Structural)]
pub enum HttpMethod {
    Get,
    Post,
    Put,
    Delete,
    Other,
}

/// Server settings fixed at startup.
pub struct AuthConfig {
    /// The signing secret; without one, authentication is off.
    pub secret: Option<String>,
    /// Whether reads pass without a token while authentication is on.
    pub read_only_without_auth: bool,
}

impl AuthConfig {
    pub fn auth_enabled(&self) -> (r: bool)
        ensures
            r == self.secret is Some,
    {
        self.secret.is_some()
    }
}

/// A token is asked for only where a secret is set, and then for every
/// request but a read when reads are exempt.
pub open spec fn requires_auth_spec(has_secret: bool, read_only_without_auth: bool, method: HttpMethod) -> bool {
    has_secret && !(read_only_without_auth && method == HttpMethod::Get)
}

pub fn requires_auth(has_secret: bool, read_only_without_auth: bool, method: HttpMethod) -> (r: bool)
    ensures
        r == requires_auth_spec(has_secret, read_only_without_auth, method),
{
    if !has_secret {
        false
    } else if read_only_without_auth && method == HttpMethod::Get {
        false
    } else {
        true
    }
}

/// The scheme word that opens an `Authorization` header carrying a token.
pub open spec fn bearer_prefix() -> Seq<char> {
    seq!['B', 'e', 'a', 'r', 'e', 'r', ' ']
}

/// The token an `Authorization` header value carries, if it has the bearer
/// form; a missing header carries none.
pub open spec fn bearer_of(header: Option<Seq<char>>) -> Option<Seq<char>> {
    match header {
        Some(h) => if h.len() >= bearer_prefix().len() && h.subrange(0, bearer_prefix().len() as int)
            == bearer_prefix() {
            Some(h.subrange(bearer_prefix().len() as int, h.len() as int))
        } else {
            None
        },
        None => None,
    }
}

pub open spec fn header_view(header: Option<&str>) -> Option<Seq<char>> {
    match header {
        Some(h) => Some(h@),
        None => None,
    }
}

/// Relies on `str::strip_prefix`: the rest of `s` after `"Bearer "` when `s`
/// starts with it, and nothing otherwise.
#[verifier::external_body]
fn strip_bearer(s: &str) -> (r: Option<&str>)
    ensures
        header_view(r) == bearer_of(Some(s@)),
{
    s.strip_prefix("Bearer ")
}

/// The bearer token of an `Authorization` header.
pub fn bearer_token(header: Option<&str>) -> (r: Option<&str>)
    ensures
        header_view(r) == bearer_of(header_view(header)),
{
    match header {
        Some(h) => strip_bearer(h),
        None => None,
    }
}

/// The expiry (`exp`, seconds since the epoch) of `token` when it carries an
/// HS256 signature made with `secret` and both an `exp` and a `sub` claim;
/// nothing otherwise.
pub uninterp spec fn verified_expiry(token: Seq<char>, secret: Seq<char>) -> Option<u64>;

/// Relies on `jsonwebtoken::decode` with HS256, `exp` and `sub` required and
/// the clock left out of it: the result depends on the token and the secret
/// alone, and a token that `jsonwebtoken::encode` signed with the same secret
/// over `{sub, exp}` decodes to its `exp`.
#[verifier::external_body]
fn decode_expiry(token: &str, secret: &str) -> (r: Option<u64>)
    ensures
        r == verified_expiry(token@, secret@),
        forall|sub: Seq<char>, exp: int|
            0 <= exp <= i64::MAX && token@ == #[trigger] signed_token(sub, exp, secret@) ==> r == Some(
                exp as u64,
            ),
{
    let key = jsonwebtoken::DecodingKey::from_secret(secret.as_bytes());
    let mut validation = jsonwebtoken::Validation::new(jsonwebtoken::Algorithm::HS256);
    validation.validate_exp = false;
    validation.set_required_spec_claims(&["exp", "sub"]);
    let data = jsonwebtoken::decode::<serde_json::Value>(token, &key, &validation).ok()?;
    data.claims.get("exp").and_then(serde_json::Value::as_u64)
}

/// A token is live at `now` when it verifies and its expiry is still ahead.
pub open spec fn token_live(token: Seq<char>, secret: Seq<char>, now: i64) -> bool {
    match verified_expiry(token, secret) {
        Some(exp) => (now as int) < (exp as int),
        None => false,
    }
}

/// Whether a request may go on at time `now`: either no token is asked for,
/// or the `Authorization` header carries a bearer token that is live.
pub open spec fn authorized(config: AuthConfig, method: HttpMethod, header: Option<Seq<char>>, now: i64) -> bool {
    !requires_auth_spec(config.secret is Some, config.read_only_without_auth, method) || match bearer_of(
        header,
    ) {
        Some(t) => token_live(t, config.secret->Some_0@, now),
        None => false,
    }
}

/// The auth check at time `now` (seconds since the epoch).
pub fn ensure_auth_at(config: &AuthConfig, method: HttpMethod, header: Option<&str>, now: i64) -> (r: Result<
    (),
    AppError,
>)
    ensures
        r is Ok <==> authorized(*config, method, header_view(header), now),
        r is Err ==> r == Err::<(), AppError>(AppError::Unauthorized),
        forall|sub: Seq<char>, exp: int|
            0 <= exp <= i64::MAX && config.secret is Some && bearer_of(header_view(header)) == Some(
                #[trigger] signed_token(sub, exp, config.secret->Some_0@),
            ) ==> (r is Ok <==> (!requires_auth_spec(true, config.read_only_without_auth, method)
                || now < exp)),
{
    if !requires_auth(config.secret.is_some(), config.read_only_without_auth, method) {
        return Ok(());
    }
    let secret = match &config.secret {
        Some(s) => s,
        None => {
            return Err(AppError::Unauthorized);
        },
    };
    let token = match bearer_token(header) {
        Some(t) => t,
        None => {
            return Err(AppError::Unauthorized);
        },
    };
    match decode_expiry(token, secret.as_str()) {
        Some(exp) => if now < 0 || (now as u64) < exp {
            Ok(())
        } else {
            Err(AppError::Unauthorized)
        },
        None => Err(AppError::Unauthorized),
    }
}

/// With no secret configured, no request is ever asked for a token.
pub proof fn lemma_open_server(config: AuthConfig, method: HttpMethod, header: Option<Seq<char>>, now: i64)
    requires
        config.secret is None,
    ensures
        authorized(config, method, header, now),
{
}

/// With a secret configured and reads exempt, every read passes without a
/// token, and every other request passes only with a live bearer token.
pub proof fn lemma_reads_open_writes_gated(
    config: AuthConfig,
    method: HttpMethod,
    header: Option<Seq<char>>,
    now: i64,
)
    requires
        config.secret is Some,
        config.read_only_without_auth,
    ensures
        method == HttpMethod::Get ==> authorized(config, method, header, now),
        method != HttpMethod::Get ==> (authorized(config, method, header, now) <==> (bearer_of(header) is Some
            && token_live(bearer_of(header)->Some_0, config.secret->Some_0@, now))),
{
}

} // verus!
