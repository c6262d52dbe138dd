//! The service's error type and the HTTP answer that each error gets.

use vstd::prelude::*;

use crate::text::{concat2, contains, contains_text, occurs_at};

verus! {

#[verifier::external_type_specification]
#[verifier::external_body]
pub struct ExJwtError(jsonwebtoken::errors::Error);

/// What the service keeps of a failed database call: the database's own
/// message when the failure was reported by the database itself.
#[derive(Debug, Clone)]
pub struct DatabaseError {
    pub message: Option<String>,
}

/// A failure reported by `jsonwebtoken`, with the text its `Display` gives.
#[derive(Debug)]
pub struct TokenError {
    pub source: jsonwebtoken::errors::Error,
    pub text: String,
}

impl TokenError {
    /// Keeps the error together with its text.
    pub fn from_jwt(source: jsonwebtoken::errors::Error) -> (r: TokenError)
        ensures
            r.source == source,
    {
        let text = jwt_error_text(&source);
        TokenError { source, text }
    }
}

/// Unified application error type. Every variant maps to an HTTP status + message.
#[derive(Debug)]
pub enum AppError {
    Sqlx(DatabaseError),
    Auth(String),
    NotFound(String),
    BadRequest(String),
    Internal(String),
    Jwt(TokenError),
}

/// Whether a database failure is the violation of a uniqueness constraint.
pub open spec fn is_unique_violation(e: DatabaseError) -> bool {
    match e.message {
        Some(m) => contains_text(m@, "UNIQUE"@),
        None => false,
    }
}

/// The status of the answer to an error.
pub open spec fn error_status(e: AppError) -> u16 {
    match e {
        AppError::Sqlx(d) => if is_unique_violation(d) { 409 } else { 500 },
        AppError::Auth(_) => 401,
        AppError::NotFound(_) => 404,
        AppError::BadRequest(_) => 400,
        AppError::Internal(_) => 500,
        AppError::Jwt(_) => 401,
    }
}

/// The message of the answer to an error.
pub open spec fn error_message(e: AppError) -> Seq<char> {
    match e {
        AppError::Sqlx(d) => if is_unique_violation(d) {
            "Username or email already taken"@
        } else {
            "Database error"@
        },
        AppError::Auth(m) => m@,
        AppError::NotFound(m) => m@,
        AppError::BadRequest(m) => m@,
        AppError::Internal(m) => m@,
        AppError::Jwt(t) => "Invalid token: "@ + t.text@,
    }
}

/// Calls the `Display` of `jsonwebtoken::errors::Error`; nothing is stated of the text.
#[verifier::external_body]
fn jwt_error_text(e: &jsonwebtoken::errors::Error) -> String {
    e.to_string()
}

fn unique_violation(d: &DatabaseError) -> (r: bool)
    ensures
        r == is_unique_violation(*d),
{
    match &d.message {
        Some(m) => contains(m.as_str(), "UNIQUE"),
        None => false,
    }
}

/// Whether the text `UNIQUE` stands somewhere in a message.
pub open spec fn mentions_unique(m: Seq<char>) -> bool {
    exists|i: int| 0 <= i && i + 6 <= m.len() && #[trigger] m.subrange(i, i + 6) == "UNIQUE"@
}

/// A database failure is answered 409 "Username or email already taken" exactly
/// when the database's message holds the text `UNIQUE` somewhere (whichever
/// unique constraint failed), and 500 "Database error" otherwise, also when
/// there is no message.
pub proof fn law_unique_violations_are_conflicts(d: DatabaseError)
    ensures
        (d.message matches Some(m) && mentions_unique(m@)) ==> error_status(AppError::Sqlx(d)) == 409
            && error_message(AppError::Sqlx(d)) == "Username or email already taken"@,
        !(d.message matches Some(m) && mentions_unique(m@)) ==> error_status(AppError::Sqlx(d)) == 500
            && error_message(AppError::Sqlx(d)) == "Database error"@,
{
    reveal_strlit("UNIQUE");
    if let Some(m) = d.message {
        if mentions_unique(m@) {
            let i = choose|i: int| 0 <= i && i + 6 <= m@.len() && #[trigger] m@.subrange(i, i + 6) == "UNIQUE"@;
            assert(occurs_at(m@, "UNIQUE"@, i));
        }
        if contains_text(m@, "UNIQUE"@) {
            let i = choose|i: int| occurs_at(m@, "UNIQUE"@, i);
            assert(m@.subrange(i, i + 6) == "UNIQUE"@);
        }
    }
}

impl AppError {
    /// The HTTP status and the message of the JSON body `{"error": message}`
    /// that answer this error.
    pub fn response_parts(&self) -> (r: (u16, String))
        ensures
            r.0 == error_status(*self),
            r.1@ == error_message(*self),
            self matches AppError::Sqlx(d) && (d.message matches Some(m) && mentions_unique(m@))
                ==> r.0 == 409 && r.1@ == "Username or email already taken"@,
            self matches AppError::Sqlx(d) && !(d.message matches Some(m) && mentions_unique(m@))
                ==> r.0 == 500 && r.1@ == "Database error"@,
    {
        proof {
            if self is Sqlx {
                law_unique_violations_are_conflicts(self->Sqlx_0);
            }
        }
        match self {
            AppError::Sqlx(d) => {
                if unique_violation(d) {
                    (409, "Username or email already taken".to_owned())
                } else {
                    (500, "Database error".to_owned())
                }
            },
            AppError::Auth(m) => (401, m.clone()),
            AppError::NotFound(m) => (404, m.clone()),
            AppError::BadRequest(m) => (400, m.clone()),
            AppError::Internal(m) => (500, m.clone()),
            AppError::Jwt(t) => (401, concat2("Invalid token: ", t.text.as_str())),
        }
    }
}

} // verus!
