use vstd::prelude::*;
use vstd::string::*;

use crate::error::AppError;
use crate::text::opt_str_view;
use crate::text::{has_prefix, strip_text_prefix, text_equals};

verus! {

/// The scheme that an `Authorization` header must start with.
pub const BEARER_PREFIX: &'static str = "Bearer ";

/// How long an issued token stays valid, in seconds.
pub const TOKEN_LIFETIME_SECS: u64 = 3600;

/// The body of a login request.
pub struct Login {
    pub username: String,
    pub password: String,
}

/// The single credential pair that login accepts.
pub open spec fn credentials_accepted(username: Seq<char>, password: Seq<char>) -> bool {
    username == "admin"@ && password == "password"@
}

/// The one place where credentials are checked, so that a credential store can
/// replace it without touching the guard.
pub fn check_credentials(username: &str, password: &str) -> (r: bool)
    ensures
        r == credentials_accepted(username@, password@),
{
    text_equals(username, "admin") && text_equals(password, "password")
}

/// The HS256 token that jsonwebtoken signs for these claims and this secret.
pub uninterp spec fn signed_token(subject: Seq<char>, expiry: u64, secret: Seq<char>) -> Seq<char>;

/// The `exp` claim of `token` when its HS256 signature checks out against
/// `secret` and the claim is present, whatever the current time.
pub uninterp spec fn token_expiry(token: Seq<char>, secret: Seq<char>) -> Option<u64>;

/// jsonwebtoken's error type, carried opaquely out of `encode_token`.
#[verifier::external_type_specification]
#[verifier::external_body]
pub struct ExJwtError(jsonwebtoken::errors::Error);

/// Relies on `jsonwebtoken::encode` with the default (HS256) header and
/// `EncodingKey::from_secret`: signs the claims `sub` and `exp`. With an HMAC
/// key and an HMAC algorithm, and claims that always serialize, it does not
/// fail. The token is three dot-separated parts, and `jsonwebtoken::decode`
/// under the same secret (HS256) reads its `exp` back.
#[verifier::external_body]
fn encode_token(subject: &str, expiry: u64, secret: &str) -> (r: Result<
    String,
    jsonwebtoken::errors::Error,
>)
    ensures
        r is Ok,
        r matches Ok(t) ==> t@ == signed_token(subject@, expiry, secret@),
        r matches Ok(t) ==> t@.len() > 0,
        r matches Ok(t) ==> token_expiry(t@, secret@) == Some(expiry),
{
    let mut claims = serde_json::Map::new();
    claims.insert("sub".to_owned(), serde_json::Value::from(subject));
    claims.insert("exp".to_owned(), serde_json::Value::from(expiry));
    let key = jsonwebtoken::EncodingKey::from_secret(secret.as_bytes());
    jsonwebtoken::encode(&jsonwebtoken::Header::default(), &claims, &key)
}

/// Relies on `jsonwebtoken::decode` with the default validation (HS256, `exp`
/// required) but with the expiry check turned off, so that the result depends
/// on the token and the secret alone; hands back the `exp` claim.
#[verifier::external_body]
fn decode_expiry(token: &str, secret: &str) -> (r: Option<u64>)
    ensures
        r == token_expiry(token@, secret@),
{
    let mut validation = jsonwebtoken::Validation::default();
    validation.validate_exp = false;
    let key = jsonwebtoken::DecodingKey::from_secret(secret.as_bytes());
    jsonwebtoken::decode::<serde_json::Value>(token, &key, &validation).ok().and_then(
        |data| data.claims.get("exp").and_then(|exp| exp.as_u64()),
    )
}

/// Relies on `jsonwebtoken::get_current_timestamp`: seconds since the Unix
/// epoch, the clock that token expiry is measured against.
#[verifier::external_body]
fn current_unix_time() -> (r: u64) {
    jsonwebtoken::get_current_timestamp()
}

/// A token is valid strictly before its expiry.
pub open spec fn expiry_accepted(expiry: Option<u64>, now: u64) -> bool {
    expiry matches Some(exp) && now < exp
}

/// Whether a token with this expiry is still valid at `now`.
pub fn token_accepted(expiry: Option<u64>, now: u64) -> (r: bool)
    ensures
        r == expiry_accepted(expiry, now),
{
    match expiry {
        Some(exp) => now < exp,
        None => false,
    }
}

/// The token of an `Authorization` header of the form `Bearer <token>`.
pub open spec fn bearer_token_spec(header: Option<Seq<char>>) -> Option<Seq<char>> {
    match header {
        Some(h) => if has_prefix(h, BEARER_PREFIX@) {
            Some(h.subrange(BEARER_PREFIX@.len() as int, h.len() as int))
        } else {
            None
        },
        None => None,
    }
}

/// A request passes the guard when it carries a bearer token whose signature
/// checks out and which has not expired at `now`.
pub open spec fn bearer_accepted(header: Option<Seq<char>>, secret: Seq<char>, now: u64) -> bool {
    bearer_token_spec(header) matches Some(token) && expiry_accepted(
        token_expiry(token, secret),
        now,
    )
}

/// The token that follows `Bearer ` in the header, if the header has that
/// form.
pub fn bearer_token(header: Option<&str>) -> (r: Option<&str>)
    ensures
        opt_str_view(r) == bearer_token_spec(opt_str_view(header)),
{
    match header {
        Some(h) => strip_text_prefix(h, BEARER_PREFIX),
        None => None,
    }
}

/// The guard's decision at time `now`. Every cause of rejection (no header,
/// another scheme, a bad signature, an expired token) gives the same
/// `Unauthorized`.
pub fn auth_at(header: Option<&str>, secret: &str, now: u64) -> (r: Result<(), AppError>)
    ensures
        r is Ok <==> bearer_accepted(opt_str_view(header), secret@, now),
        r is Err ==> r == Err::<(), AppError>(AppError::Auth),
{
    match bearer_token(header) {
        Some(token) => {
            let expiry = decode_expiry(token, secret);
            if token_accepted(expiry, now) {
                Ok(())
            } else {
                Err(AppError::Auth)
            }
        },
        None => Err(AppError::Auth),
    }
}

/// The guard in front of every mutating operation, at the current time.
pub fn auth(header: Option<&str>, secret: &str) -> (r: Result<(), AppError>)
    ensures
        r is Err ==> r == Err::<(), AppError>(AppError::Auth),
        bearer_token_spec(opt_str_view(header)) is None ==> r is Err,
        r is Ok ==> (bearer_token_spec(opt_str_view(header)) matches Some(token) && token_expiry(
            token,
            secret@,
        ) is Some),
{
    let now = current_unix_time();
    auth_at(header, secret, now)
}

/// The token issued to `username` at `now`: it expires one lifetime later.
pub fn issue_token(username: &str, secret: &str, now: u64) -> (r: String)
    requires
        now + TOKEN_LIFETIME_SECS <= u64::MAX,
    ensures
        r@ == signed_token(username@, (now + TOKEN_LIFETIME_SECS) as u64, secret@),
        r@.len() > 0,
        token_expiry(r@, secret@) == Some((now + TOKEN_LIFETIME_SECS) as u64),
{
    match encode_token(username, now + TOKEN_LIFETIME_SECS, secret) {
        Ok(token) => token,
        Err(_) => {
            proof {
                assert(false);
            }
            String::new()
        },
    }
}

/// Login at time `now`: a token for the fixed credential pair, `Unauthorized`
/// for anything else.
pub fn login_at(payload: &Login, secret: &str, now: u64) -> (r: Result<String, AppError>)
    requires
        now + TOKEN_LIFETIME_SECS <= u64::MAX,
    ensures
        credentials_accepted(payload.username@, payload.password@) ==> (r matches Ok(t) && t@
            == signed_token(payload.username@, (now + TOKEN_LIFETIME_SECS) as u64, secret@)
            && t@.len() > 0 && token_expiry(t@, secret@) == Some(
            (now + TOKEN_LIFETIME_SECS) as u64,
        )),
        !credentials_accepted(payload.username@, payload.password@) ==> r == Err::<
            String,
            AppError,
        >(AppError::Auth),
{
    if !check_credentials(payload.username.as_str(), payload.password.as_str()) {
        return Err(AppError::Auth);
    }
    Ok(issue_token(payload.username.as_str(), secret, now))
}

/// Login at the current time. With the right credentials it fails only if the
/// clock reads so late that the expiry would not fit.
pub fn login(payload: &Login, secret: &str) -> (r: Result<String, AppError>)
    ensures
        !credentials_accepted(payload.username@, payload.password@) ==> r == Err::<
            String,
            AppError,
        >(AppError::Auth),
        credentials_accepted(payload.username@, payload.password@) ==> (r matches Ok(t)
            && t@.len() > 0 && exists|expiry: u64|
            t@ == signed_token(payload.username@, expiry, secret@) && token_expiry(t@, secret@)
                == Some(expiry)) || r matches Err(AppError::Db(_)),
{
    let now = current_unix_time();
    if now > u64::MAX - TOKEN_LIFETIME_SECS {
        if !check_credentials(payload.username.as_str(), payload.password.as_str()) {
            return Err(AppError::Auth);
        }
        return Err(AppError::Db(String::from_str("clock out of range")));
    }
    login_at(payload, secret, now)
}

} // verus!
