//! Who makes a request: an authenticated user, an administrator, or a session
//! (a user's, or a guest's), resolved from the request's headers.

use vstd::prelude::*;

use crate::auth::jwt::{accepted_claims, hs256_token_claims, validate_token, validated_at, Claims};
use crate::text::{strip_prefix, strip_prefix_text};

verus! {

/// A request made with a valid session token.
#[derive(Debug, Clone)]
pub struct AuthUser {
    pub user_id: String,
    pub username: String,
    pub is_admin: bool,
}

/// A refused request: the HTTP status and the message of the JSON body `{"error": message}`.
#[derive(Debug)]
pub struct AuthError(pub u16, pub String);

/// A request made with a valid session token of an administrator.
#[derive(Debug, Clone)]
pub struct AdminUser {
    pub user_id: String,
    pub username: String,
}

/// The session a request belongs to.
#[derive(Debug, Clone)]
pub struct SessionContext {
    pub session_id: String,
    /// Some(user_id) if authenticated via JWT, None if guest
    pub user_id: Option<String>,
}

/// What became of the bearer token of a request.
#[derive(Debug)]
pub enum TokenCheck {
    /// No `Authorization` header of the form `Bearer <token>`.
    Missing,
    /// A token that was refused.
    Invalid,
    /// A token that was accepted, with its claims.
    Valid(Claims),
}

/// The text of a header value, if there is one.
pub open spec fn header_text(h: Option<&str>) -> Option<Seq<char>> {
    match h {
        Some(s) => Some(s@),
        None => None,
    }
}

/// The bearer token of an `Authorization` header value: what follows `Bearer `.
pub open spec fn bearer_of(authorization: Option<Seq<char>>) -> Option<Seq<char>> {
    match authorization {
        Some(h) => strip_prefix_text(h, "Bearer "@),
        None => None,
    }
}

/// The bearer token of an `Authorization` header value, if it has one.
pub fn bearer_token(authorization: Option<&str>) -> (r: Option<String>)
    ensures
        match r {
            Some(t) => bearer_of(header_text(authorization)) == Some(t@),
            None => bearer_of(header_text(authorization)) is None,
        },
{
    match authorization {
        Some(h) => strip_prefix(h, "Bearer "),
        None => None,
    }
}

/// What became of a bearer token `t` checked at time `now`.
pub open spec fn checked_at(r: TokenCheck, t: Seq<char>, secret: Seq<char>, now: u64) -> bool {
    match r {
        TokenCheck::Valid(c) => accepted_claims(t, secret, now) == Some(c@),
        TokenCheck::Invalid => accepted_claims(t, secret, now) is None,
        TokenCheck::Missing => false,
    }
}

/// Checks the bearer token of an `Authorization` header value against `secret`.
pub fn check_bearer(authorization: Option<&str>, secret: &str) -> (r: TokenCheck)
    ensures
        bearer_of(header_text(authorization)) is None ==> r is Missing,
        bearer_of(header_text(authorization)) is Some ==> exists|now: u64|
            #[trigger] checked_at(r, bearer_of(header_text(authorization))->0, secret@, now),
{
    match bearer_token(authorization) {
        None => TokenCheck::Missing,
        Some(token) => {
            let r = check_token(token.as_str(), secret);
            let ghost now = choose|now: u64| #[trigger] checked_at(r, token@, secret@, now);
            assert(checked_at(r, bearer_of(header_text(authorization))->0, secret@, now));
            r
        },
    }
}

/// Checks a bearer token against `secret`.
pub fn check_token(token: &str, secret: &str) -> (r: TokenCheck)
    ensures
        exists|now: u64| #[trigger] checked_at(r, token@, secret@, now),
{
    let v = validate_token(token, secret);
    let ghost now = choose|now: u64| validated_at(v, token@, secret@, now);
    let check = match v {
        Ok(c) => TokenCheck::Valid(c),
        Err(_) => TokenCheck::Invalid,
    };
    assert(checked_at(check, token@, secret@, now));
    check
}

/// The refusal of a request without a bearer token.
pub open spec fn missing_token_refusal() -> (u16, Seq<char>) {
    (401, "Missing or malformed Authorization header"@)
}

/// The refusal of a request whose token was not accepted.
pub open spec fn invalid_token_refusal() -> (u16, Seq<char>) {
    (401, "Invalid or expired token"@)
}

/// The refusal of a request that needs an administrator.
pub open spec fn not_admin_refusal() -> (u16, Seq<char>) {
    (403, "Admin access required"@)
}

/// The refusal of a request that names no session at all.
pub open spec fn no_session_refusal() -> (u16, Seq<char>) {
    (401, "Provide a Bearer token or X-Guest-Session header"@)
}

/// The user answer to a bearer token `t` checked at time `now`.
pub open spec fn user_at(r: Result<AuthUser, AuthError>, t: Seq<char>, secret: Seq<char>, now: u64) -> bool {
    match accepted_claims(t, secret, now) {
        Some(c) => r matches Ok(u) && u.user_id@ == c.0 && u.username@ == c.1 && u.is_admin == c.4,
        None => r matches Err(e) && e.parts() == invalid_token_refusal(),
    }
}

/// The administrator answer to a bearer token `t` checked at time `now`.
pub open spec fn admin_at(r: Result<AdminUser, AuthError>, t: Seq<char>, secret: Seq<char>, now: u64) -> bool {
    match accepted_claims(t, secret, now) {
        Some(c) => if c.4 {
            r matches Ok(a) && a.user_id@ == c.0 && a.username@ == c.1
        } else {
            r matches Err(e) && e.parts() == not_admin_refusal()
        },
        None => r matches Err(e) && e.parts() == invalid_token_refusal(),
    }
}

/// The session answer to a bearer token `t` checked at time `now` and a guest header.
pub open spec fn session_at(r: Result<SessionContext, AuthError>, t: Seq<char>, guest: Option<String>, secret: Seq<char>, now: u64) -> bool {
    match accepted_claims(t, secret, now) {
        Some(c) => r matches Ok(s) && s.session_id@ == c.0 && (s.user_id matches Some(u) && u@ == c.0),
        None => match guest {
            Some(g) => r matches Ok(s) && s.session_id == g && s.user_id is None,
            None => r matches Err(e) && e.parts() == no_session_refusal(),
        },
    }
}

/// At a given clock reading, a token whose expiry lies more than 60 seconds
/// in the past is refused: the user answer is 401 "Invalid or expired token",
/// and so is the administrator answer.
pub proof fn law_expired_token_is_refused(
    t: Seq<char>,
    secret: Seq<char>,
    now: u64,
    user: Result<AuthUser, AuthError>,
    admin: Result<AdminUser, AuthError>,
)
    requires
        hs256_token_claims(t, secret) matches Some(c) && c.2 < now - 60,
        user_at(user, t, secret, now),
        admin_at(admin, t, secret, now),
    ensures
        user matches Err(e) && e.parts() == invalid_token_refusal(),
        admin matches Err(e) && e.parts() == invalid_token_refusal(),
{
}

/// At a given clock reading, a token that is accepted gives its user's session
/// (the user id as session id) whether or not a guest session is named; the
/// guest session is used only when the token is refused.
pub proof fn law_accepted_token_outweighs_the_guest(
    t: Seq<char>,
    secret: Seq<char>,
    now: u64,
    guest: Option<String>,
    r: Result<SessionContext, AuthError>,
)
    requires
        session_at(r, t, guest, secret, now),
        hs256_token_claims(t, secret) matches Some(c) && c.2 >= now - 60,
    ensures
        hs256_token_claims(t, secret) matches Some(c) && (r matches Ok(s) && s.session_id@ == c.0
            && (s.user_id matches Some(u) && u@ == c.0)),
{
}

impl AuthError {
    /// The refusal as a status and a message.
    pub open spec fn parts(self) -> (u16, Seq<char>) {
        (self.0, self.1@)
    }
}

impl AuthUser {
    /// The user of a request, from what became of its bearer token.
    pub fn from_check(check: TokenCheck) -> (r: Result<AuthUser, AuthError>)
        ensures
            match check {
                TokenCheck::Missing => r matches Err(e) && e.parts() == missing_token_refusal(),
                TokenCheck::Invalid => r matches Err(e) && e.parts() == invalid_token_refusal(),
                TokenCheck::Valid(c) => r matches Ok(u) && u.user_id == c.sub && u.username == c.username
                    && u.is_admin == c.is_admin,
            },
    {
        match check {
            TokenCheck::Missing => Err(AuthError(401, "Missing or malformed Authorization header".to_owned())),
            TokenCheck::Invalid => Err(AuthError(401, "Invalid or expired token".to_owned())),
            TokenCheck::Valid(c) => Ok(AuthUser { user_id: c.sub, username: c.username, is_admin: c.is_admin }),
        }
    }

    /// The user of a request with this `Authorization` header value.
    pub fn from_authorization(authorization: Option<&str>, secret: &str) -> (r: Result<AuthUser, AuthError>)
        ensures
            match bearer_of(header_text(authorization)) {
                None => r matches Err(e) && e.parts() == missing_token_refusal(),
                Some(t) => match r {
                    Ok(u) => hs256_token_claims(t, secret@) matches Some(c) && c.0 == u.user_id@ && c.1 == u.username@
                        && c.4 == u.is_admin,
                    Err(e) => e.parts() == invalid_token_refusal(),
                },
            },
            bearer_of(header_text(authorization)) is Some ==> exists|now: u64|
                #[trigger] user_at(r, bearer_of(header_text(authorization))->0, secret@, now),
    {
        let check = check_bearer(authorization, secret);
        let ghost b = bearer_of(header_text(authorization));
        let ghost now = choose|now: u64| #[trigger] checked_at(check, b->0, secret@, now);
        let r = AuthUser::from_check(check);
        assert(b is Some ==> user_at(r, b->0, secret@, now));
        r
    }
}

impl AdminUser {
    /// The administrator of a request, from what became of its bearer token.
    pub fn from_check(check: TokenCheck) -> (r: Result<AdminUser, AuthError>)
        ensures
            match check {
                TokenCheck::Missing => r matches Err(e) && e.parts() == missing_token_refusal(),
                TokenCheck::Invalid => r matches Err(e) && e.parts() == invalid_token_refusal(),
                TokenCheck::Valid(c) => if c.is_admin {
                    r matches Ok(a) && a.user_id == c.sub && a.username == c.username
                } else {
                    r matches Err(e) && e.parts() == not_admin_refusal()
                },
            },
    {
        match check {
            TokenCheck::Missing => Err(AuthError(401, "Missing or malformed Authorization header".to_owned())),
            TokenCheck::Invalid => Err(AuthError(401, "Invalid or expired token".to_owned())),
            TokenCheck::Valid(c) => {
                if !c.is_admin {
                    return Err(AuthError(403, "Admin access required".to_owned()));
                }
                Ok(AdminUser { user_id: c.sub, username: c.username })
            },
        }
    }

    /// The administrator of a request with this `Authorization` header value.
    pub fn from_authorization(authorization: Option<&str>, secret: &str) -> (r: Result<AdminUser, AuthError>)
        ensures
            match bearer_of(header_text(authorization)) {
                None => r matches Err(e) && e.parts() == missing_token_refusal(),
                Some(t) => match r {
                    Ok(a) => hs256_token_claims(t, secret@) matches Some(c) && c.0 == a.user_id@ && c.1 == a.username@ && c.4,
                    Err(e) => e.parts() == invalid_token_refusal() || (e.parts() == not_admin_refusal()
                        && (hs256_token_claims(t, secret@) matches Some(c) && !c.4)),
                },
            },
            bearer_of(header_text(authorization)) is Some ==> exists|now: u64|
                #[trigger] admin_at(r, bearer_of(header_text(authorization))->0, secret@, now),
    {
        let check = check_bearer(authorization, secret);
        let ghost b = bearer_of(header_text(authorization));
        let ghost now = choose|now: u64| #[trigger] checked_at(check, b->0, secret@, now);
        let r = AdminUser::from_check(check);
        assert(b is Some ==> admin_at(r, b->0, secret@, now));
        r
    }
}

impl SessionContext {
    /// The session of a request, from what became of its bearer token and its
    /// guest session header: a user's session when the token was accepted,
    /// else the guest session when one is named, else a refusal.
    pub fn from_checks(check: TokenCheck, guest: Option<String>) -> (r: Result<SessionContext, AuthError>)
        ensures
            match check {
                TokenCheck::Valid(c) => r matches Ok(s) && s.session_id == c.sub && s.user_id == Some(c.sub),
                _ => match guest {
                    Some(g) => r matches Ok(s) && s.session_id == g && s.user_id is None,
                    None => r matches Err(e) && e.parts() == no_session_refusal(),
                },
            },
    {
        if let TokenCheck::Valid(c) = check {
            return Ok(SessionContext { session_id: c.sub.clone(), user_id: Some(c.sub) });
        }
        match guest {
            Some(guest_id) => Ok(SessionContext { session_id: guest_id, user_id: None }),
            None => Err(AuthError(401, "Provide a Bearer token or X-Guest-Session header".to_owned())),
        }
    }

    /// The session of a request with these `Authorization` and guest session header values.
    pub fn resolve(authorization: Option<&str>, guest: Option<String>, secret: &str) -> (r: Result<SessionContext, AuthError>)
        ensures
            match r {
                Ok(s) => match s.user_id {
                    Some(u) => u@ == s.session_id@ && (bearer_of(header_text(authorization)) matches Some(t)
                        && (hs256_token_claims(t, secret@) matches Some(c) && c.0 == u@)),
                    None => guest == Some(s.session_id),
                },
                Err(e) => e.parts() == no_session_refusal() && guest is None,
            },
            bearer_of(header_text(authorization)) is None ==> match guest {
                Some(g) => r matches Ok(s) && s.session_id == g && s.user_id is None,
                None => r matches Err(e) && e.parts() == no_session_refusal(),
            },
            bearer_of(header_text(authorization)) is Some ==> exists|now: u64|
                #[trigger] session_at(r, bearer_of(header_text(authorization))->0, guest, secret@, now),
    {
        let check = check_bearer(authorization, secret);
        let ghost b = bearer_of(header_text(authorization));
        let ghost now = choose|now: u64| #[trigger] checked_at(check, b->0, secret@, now);
        let ghost g = guest;
        let r = SessionContext::from_checks(check, guest);
        assert(b is Some ==> session_at(r, b->0, g, secret@, now));
        r
    }
}

} // verus!
