//! The account endpoints: what registration, login, logout and "me" decide.

use vstd::prelude::*;

use crate::errors::AppError;
use crate::models::{public_user_of, MessageResponse, PublicUser, UserRow, UserTickerRow};
use crate::stocks_register::{ticker_key, StocksRegister};
use crate::text::{is_blank, is_blank_text, is_white_space, law_blank_means_only_white_space};

verus! {

/// A request to open an account, with the tickers and the session of the
/// guest who opens it.
#[derive(Debug)]
pub struct RegisterPayload {
    pub username: String,
    pub email: String,
    pub password: String,
    pub guest_tickers: Vec<GuestTicker>,
    pub guest_session_id: Option<String>,
}

/// A ticker kept by a guest, to be saved for the new account.
#[derive(Debug)]
pub struct GuestTicker {
    pub ticker: String,
    pub interval: String,
    pub range: String,
}

/// The interval of a guest ticker that names none: daily quotes.
pub fn default_interval() -> (r: String)
    ensures
        r@ == "1d"@,
{
    "1d".to_owned()
}

/// The range of a guest ticker that names none: three months.
pub fn default_range() -> (r: String)
    ensures
        r@ == "3mo"@,
{
    "3mo".to_owned()
}

/// The length of a text in bytes of UTF-8, as `str::len` gives it.
pub open spec fn utf8_len(s: Seq<char>) -> usize {
    vstd::utf8::encode_utf8(s).len() as usize
}

/// Passwords shorter than this many bytes are refused.
pub const MIN_PASSWORD_BYTES: usize = 8;

/// Checks a registration before anything is stored: the user name and the
/// e-mail must not be blank, and the password must have at least 8 bytes.
pub fn validate_registration(payload: &RegisterPayload) -> (r: Result<(), AppError>)
    ensures
        is_blank_text(payload.username@) || is_blank_text(payload.email@) ==> (r matches Err(AppError::BadRequest(m))
            && m@ == "Username and email are required"@),
        !is_blank_text(payload.username@) && !is_blank_text(payload.email@) && utf8_len(payload.password@) < 8
            ==> (r matches Err(AppError::BadRequest(m)) && m@ == "Password must be at least 8 characters"@),
        !is_blank_text(payload.username@) && !is_blank_text(payload.email@) && utf8_len(payload.password@) >= 8
            ==> r is Ok,
        (exists|i: int| 0 <= i < payload.username@.len() && !is_white_space(#[trigger] payload.username@[i]))
            && (exists|j: int| 0 <= j < payload.email@.len() && !is_white_space(#[trigger] payload.email@[j]))
            && utf8_len(payload.password@) >= 8 ==> r is Ok,
        (forall|i: int| 0 <= i < payload.username@.len() ==> is_white_space(#[trigger] payload.username@[i]))
            ==> (r matches Err(AppError::BadRequest(m)) && m@ == "Username and email are required"@),
        (forall|j: int| 0 <= j < payload.email@.len() ==> is_white_space(#[trigger] payload.email@[j]))
            ==> (r matches Err(AppError::BadRequest(m)) && m@ == "Username and email are required"@),
{
    proof {
        law_blank_means_only_white_space(payload.username@);
        law_blank_means_only_white_space(payload.email@);
    }
    if is_blank(payload.username.as_str()) || is_blank(payload.email.as_str()) {
        return Err(AppError::BadRequest("Username and email are required".to_owned()));
    }
    if payload.password.as_str().len() < MIN_PASSWORD_BYTES {
        return Err(AppError::BadRequest("Password must be at least 8 characters".to_owned()));
    }
    Ok(())
}

/// The refusal of a login, whether the user is unknown or the password wrong.
pub open spec fn login_refused(e: AppError) -> bool {
    e matches AppError::Auth(m) && m@ == "Invalid username or password"@
}

fn invalid_credentials() -> (e: AppError)
    ensures
        login_refused(e),
{
    AppError::Auth("Invalid username or password".to_owned())
}

/// The user row a login names, refused when there is none.
pub fn require_user(row: Option<UserRow>) -> (r: Result<UserRow, AppError>)
    ensures
        match row {
            Some(u) => r == Ok::<UserRow, AppError>(u),
            None => r matches Err(e) && login_refused(e),
        },
{
    match row {
        Some(u) => Ok(u),
        None => Err(invalid_credentials()),
    }
}

/// A login goes on only when the password matched the stored hash.
pub fn require_password(matches: bool) -> (r: Result<(), AppError>)
    ensures
        matches ==> r is Ok,
        !matches ==> (r matches Err(e) && login_refused(e)),
{
    if matches {
        Ok(())
    } else {
        Err(invalid_credentials())
    }
}

/// A login refused for an unknown user and one refused for a wrong password
/// get the same answer, so the answer does not tell which user names exist.
pub proof fn law_login_refusals_are_alike(unknown_user: AppError, wrong_password: AppError)
    requires
        login_refused(unknown_user),
        login_refused(wrong_password),
    ensures
        crate::errors::error_status(unknown_user) == crate::errors::error_status(wrong_password),
        crate::errors::error_message(unknown_user) == crate::errors::error_message(wrong_password),
{
}

/// The public form of the requesting user, or 404 when the account is gone.
pub fn require_account(row: Option<UserRow>) -> (r: Result<PublicUser, AppError>)
    ensures
        match row {
            Some(u) => r matches Ok(p) && p == public_user_of(u),
            None => r matches Err(AppError::NotFound(m)) && m@ == "User not found"@,
        },
{
    match row {
        Some(u) => Ok(PublicUser::from(u)),
        None => Err(AppError::NotFound("User not found".to_owned())),
    }
}

/// The answer to a logout.
pub fn logout_message() -> (r: MessageResponse)
    ensures
        r.message@ == "Logged out successfully"@,
{
    MessageResponse { message: "Logged out successfully".to_owned() }
}


/// Whether the register already holds the saved ticker.
pub open spec fn held<P>(register: Map<Seq<char>, crate::stocks_register::StockRecord<P>>, row: UserTickerRow) -> bool {
    register.dom().contains(ticker_key(row.ticker@))
}

/// The next saved ticker, at or after position `from`, that a login restores:
/// the first one the session's register does not hold yet. The restore asks
/// again after each fetch, so a ticker saved twice is fetched once when the
/// first fetch succeeds.
pub fn next_restore<P>(register: &StocksRegister<P>, saved: &Vec<UserTickerRow>, from: usize) -> (r: Option<usize>)
    requires
        register.wf(),
    ensures
        match r {
            Some(j) => {
                &&& from <= j < saved@.len()
                &&& !held(register@, saved@[j as int])
                &&& forall|k: int| from <= k < j ==> held(register@, #[trigger] saved@[k])
            },
            None => forall|k: int| from <= k < saved@.len() ==> held(register@, #[trigger] saved@[k]),
        },
{
    let mut j: usize = from;
    while j < saved.len()
        invariant
            register.wf(),
            from <= j || saved@.len() <= j,
            forall|k: int| from <= k < j && k < saved@.len() ==> held(register@, #[trigger] saved@[k]),
        decreases saved@.len() - j,
    {
        if register.get(saved[j].ticker.as_str()).is_none() {
            return Some(j);
        }
        j = j + 1;
    }
    None
}

} // verus!
