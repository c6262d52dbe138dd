//! Session tokens: HS256-signed JWTs that carry the user's id, name and role
//! and expire 72 hours after they are issued.

use vstd::prelude::*;

use crate::errors::{AppError, TokenError};

verus! {

/// The claims a session token carries.
#[derive(Debug, Clone)]
pub struct Claims {
    pub sub: String,
    pub username: String,
    pub exp: i64,
    pub iat: i64,
    pub is_admin: bool,
}

impl View for Claims {
    type V = (Seq<char>, Seq<char>, i64, i64, bool);

    open spec fn view(&self) -> (Seq<char>, Seq<char>, i64, i64, bool) {
        (self.sub@, self.username@, self.exp, self.iat, self.is_admin)
    }
}

/// How long a token stays valid, in seconds (72 hours).
pub const TOKEN_LIFETIME_SECS: i64 = 259200;

/// The claims of a token issued at `iat` for the given user.
pub open spec fn session_claims(user_id: Seq<char>, username: Seq<char>, is_admin: bool, iat: i64) -> (
    Seq<char>,
    Seq<char>,
    i64,
    i64,
    bool,
) {
    (user_id, username, (iat + TOKEN_LIFETIME_SECS) as i64, iat, is_admin)
}

/// The timestamps that the clock can give (seconds since 1970, within chrono's range).
pub open spec fn clock_range(t: i64) -> bool {
    0 <= t < 10_000_000_000_000
}

/// The token that `jsonwebtoken::encode` makes of these claims under this secret.
pub uninterp spec fn hs256_token(claims: (Seq<char>, Seq<char>, i64, i64, bool), secret: Seq<char>) -> Seq<char>;

/// The claims that `jsonwebtoken::decode`, with the expiry left unchecked,
/// reads from a token under this secret; `None` where it refuses the token
/// (a signature that does not check, a header or payload it cannot read, no
/// numeric `exp`, an `aud` claim) or the payload lacks one of the five claims.
pub uninterp spec fn hs256_token_claims(token: Seq<char>, secret: Seq<char>) -> Option<(Seq<char>, Seq<char>, i64, i64, bool)>;

/// The seconds by which an expiry may be past before a token is refused.
pub const EXPIRY_LEEWAY_SECS: u64 = 60;

/// A token expiring at `exp` is refused at time `now` (seconds since 1970):
/// `jsonwebtoken`'s default rule, with its leeway of 60 seconds.
pub open spec fn token_expired(exp: i64, now: u64) -> bool {
    exp < now - EXPIRY_LEEWAY_SECS
}

/// The claims a token is accepted with at time `now`, or `None` when it is refused.
pub open spec fn accepted_claims(token: Seq<char>, secret: Seq<char>, now: u64) -> Option<(Seq<char>, Seq<char>, i64, i64, bool)> {
    match hs256_token_claims(token, secret) {
        Some(c) => if token_expired(c.2, now) {
            None
        } else {
            Some(c)
        },
        None => None,
    }
}

/// Calls `chrono::Utc::now()` and takes its Unix timestamp. `Utc::now` reads the
/// system clock as a duration since the Unix epoch and builds a `DateTime`
/// inside chrono's range, whose last year is 262142; so the timestamp is not
/// negative and stays below 10^13. It panics when the system clock reads a
/// time before 1970 (a state of the machine, not of any argument).
#[verifier::external_body]
fn now_timestamp() -> (t: i64)
    ensures
        clock_range(t),
{
    chrono::Utc::now().timestamp()
}

/// Calls `jsonwebtoken::get_current_timestamp()`, the clock that `jsonwebtoken`
/// checks expiries against: seconds since 1970 read from the system clock.
/// Nothing is stated of its value; it panics when the system clock reads a
/// time before 1970.
#[verifier::external_body]
fn jwt_clock() -> u64 {
    jsonwebtoken::get_current_timestamp()
}

/// Calls `jsonwebtoken::encode` with the default header (HS256) and an HMAC key
/// made from the secret's bytes, on the claims as the JSON object
/// `{"sub", "username", "exp", "iat", "is_admin"}` in that order. With an HMAC
/// key and the HS256 header the key check passes, neither JSON encoding can
/// fail and HMAC signing returns `Ok`, so the call succeeds. The token is named
/// `hs256_token`; decoding it under the same secret reads back the claims it
/// was made from, where `exp` is not negative (a negative `exp` is not read as
/// a numeric expiry).
#[verifier::external_body]
fn encode_claims(claims: &Claims, secret: &str) -> (r: Result<String, jsonwebtoken::errors::Error>)
    ensures
        r is Ok,
        r matches Ok(t) ==> t@ == hs256_token(claims@, secret@),
        r matches Ok(t) ==> (claims.exp >= 0 ==> hs256_token_claims(t@, secret@) == Some(claims@)),
{
    let mut m = serde_json::Map::new();
    m.insert("sub".to_owned(), claims.sub.clone().into());
    m.insert("username".to_owned(), claims.username.clone().into());
    m.insert("exp".to_owned(), claims.exp.into());
    m.insert("iat".to_owned(), claims.iat.into());
    m.insert("is_admin".to_owned(), claims.is_admin.into());
    let key = jsonwebtoken::EncodingKey::from_secret(secret.as_bytes());
    jsonwebtoken::encode(&jsonwebtoken::Header::default(), &serde_json::Value::Object(m), &key)
}

/// Calls `jsonwebtoken::decode` with an HMAC key made from the secret's bytes
/// and the default validation (HS256 only, `exp` required) with the expiry
/// check turned off, on the payload as a JSON value, and reads the five claims
/// from it; a payload that lacks one of them, or holds it as another JSON type,
/// gives `ErrorKind::InvalidToken`. The required `exp` must read as a `u64`
/// (a negative integer does not), so an accepted `exp` is not negative.
/// Without the expiry check the outcome
/// depends on the token and the secret alone; it is named by `hs256_token_claims`.
#[verifier::external_body]
fn decode_claims(token: &str, secret: &str) -> (r: Result<Claims, jsonwebtoken::errors::Error>)
    ensures
        match r {
            Ok(c) => hs256_token_claims(token@, secret@) == Some(c@) && c.exp >= 0,
            Err(_) => hs256_token_claims(token@, secret@) is None,
        },
{
    let key = jsonwebtoken::DecodingKey::from_secret(secret.as_bytes());
    let mut validation = jsonwebtoken::Validation::default();
    validation.validate_exp = false;
    let v = jsonwebtoken::decode::<serde_json::Value>(token, &key, &validation)?.claims;
    match (v["sub"].as_str(), v["username"].as_str(), v["exp"].as_i64(), v["iat"].as_i64(), v["is_admin"].as_bool()) {
        (Some(sub), Some(username), Some(exp), Some(iat), Some(is_admin)) => {
            Ok(Claims { sub: sub.to_owned(), username: username.to_owned(), exp, iat, is_admin })
        },
        _ => Err(jsonwebtoken::errors::ErrorKind::InvalidToken.into()),
    }
}

/// Makes the `ErrorKind::ExpiredSignature` error of `jsonwebtoken`.
#[verifier::external_body]
fn expired_signature() -> jsonwebtoken::errors::Error {
    jsonwebtoken::errors::ErrorKind::ExpiredSignature.into()
}

/// The claims of a token issued at `now` for the given user.
pub fn claims_at(user_id: &str, username: &str, is_admin: bool, now: i64) -> (c: Claims)
    requires
        clock_range(now),
    ensures
        c@ == session_claims(user_id@, username@, is_admin, now),
{
    Claims {
        sub: user_id.to_owned(),
        username: username.to_owned(),
        iat: now,
        exp: now + TOKEN_LIFETIME_SECS,
        is_admin,
    }
}

/// The token issued at `now` for the given user, signed with `secret`.
pub fn create_token_at(user_id: &str, username: &str, is_admin: bool, secret: &str, now: i64) -> (r: Result<String, AppError>)
    requires
        clock_range(now),
    ensures
        r is Ok,
        r matches Ok(t) ==> t@ == hs256_token(session_claims(user_id@, username@, is_admin, now), secret@),
        r matches Ok(t) ==> hs256_token_claims(t@, secret@) == Some(session_claims(user_id@, username@, is_admin, now)),
{
    let claims = claims_at(user_id, username, is_admin, now);
    match encode_claims(&claims, secret) {
        Ok(t) => Ok(t),
        Err(e) => Err(AppError::Jwt(TokenError::from_jwt(e))),
    }
}

/// A token issued now for the given user, signed with `secret`.
pub fn create_token(user_id: &str, username: &str, is_admin: bool, secret: &str) -> (r: Result<String, AppError>)
    ensures
        r is Ok,
        r matches Ok(t) ==> exists|iat: i64| {
            &&& clock_range(iat)
            &&& t@ == hs256_token(session_claims(user_id@, username@, is_admin, iat), secret@)
            &&& hs256_token_claims(t@, secret@) == Some(session_claims(user_id@, username@, is_admin, iat))
        },
{
    let now = now_timestamp();
    create_token_at(user_id, username, is_admin, secret, now)
}

/// The answer to a token checked at time `now`: its claims when it is
/// accepted, else a token error.
pub open spec fn validated_at(r: Result<Claims, AppError>, token: Seq<char>, secret: Seq<char>, now: u64) -> bool {
    match r {
        Ok(c) => accepted_claims(token, secret, now) == Some(c@),
        Err(e) => accepted_claims(token, secret, now) is None && e is Jwt,
    }
}

/// The claims of `token` when `jsonwebtoken` reads it under `secret` and it has
/// not expired at time `now`.
pub fn validate_token_at(token: &str, secret: &str, now: u64) -> (r: Result<Claims, AppError>)
    ensures
        validated_at(r, token@, secret@, now),
{
    let c = match decode_claims(token, secret) {
        Ok(c) => c,
        Err(e) => return Err(AppError::Jwt(TokenError::from_jwt(e))),
    };
    if now >= EXPIRY_LEEWAY_SECS && (c.exp as u64) < now - EXPIRY_LEEWAY_SECS {
        return Err(AppError::Jwt(TokenError::from_jwt(expired_signature())));
    }
    Ok(c)
}

/// The claims of `token` when `jsonwebtoken` reads it under `secret` and it has
/// not expired by the clock.
pub fn validate_token(token: &str, secret: &str) -> (r: Result<Claims, AppError>)
    ensures
        exists|now: u64| validated_at(r, token@, secret@, now),
        hs256_token_claims(token@, secret@) is None ==> (r matches Err(e) && e is Jwt),
{
    let now = jwt_clock();
    validate_token_at(token, secret, now)
}

/// A token issued for a user is accepted under the same secret at any time up
/// to 72 hours (plus the leeway) after its issue, and carries that user's id,
/// name and role, its issue time, and an expiry 72 hours after it.
pub proof fn law_fresh_token_is_accepted(
    token: Seq<char>,
    secret: Seq<char>,
    user_id: Seq<char>,
    username: Seq<char>,
    is_admin: bool,
    iat: i64,
    now: u64,
)
    requires
        clock_range(iat),
        hs256_token_claims(token, secret) == Some(session_claims(user_id, username, is_admin, iat)),
        now <= iat + TOKEN_LIFETIME_SECS + EXPIRY_LEEWAY_SECS,
    ensures
        accepted_claims(token, secret, now) == Some(session_claims(user_id, username, is_admin, iat)),
{
}

/// Whatever a token issued for a user is accepted with is that user's id,
/// name and role, with an expiry 72 hours after its issue time.
pub proof fn law_accepted_token_gives_back_its_user(
    token: Seq<char>,
    secret: Seq<char>,
    user_id: Seq<char>,
    username: Seq<char>,
    is_admin: bool,
    iat: i64,
    now: u64,
    accepted: (Seq<char>, Seq<char>, i64, i64, bool),
)
    requires
        clock_range(iat),
        hs256_token_claims(token, secret) == Some(session_claims(user_id, username, is_admin, iat)),
        accepted_claims(token, secret, now) == Some(accepted),
    ensures
        accepted.0 == user_id,
        accepted.1 == username,
        accepted.4 == is_admin,
        accepted.3 == iat,
        accepted.2 == accepted.3 + TOKEN_LIFETIME_SECS,
{
}

} // verus!
