//! The records of users and of their saved tickers, and the shapes of the
//! authentication requests and answers.

use vstd::prelude::*;

verus! {

/// A row of the `users` table.
#[derive(Debug, Clone)]
pub struct UserRow {
    pub id: String,
    pub username: String,
    pub email: String,
    pub password_hash: String,
    pub created_at: String,
    pub updated_at: String,
    pub is_admin: bool,
}

/// What the service shows of a user: a `UserRow` without its password hash
/// and update time.
#[derive(Debug, Clone)]
pub struct PublicUser {
    pub id: String,
    pub username: String,
    pub email: String,
    pub created_at: String,
    pub is_admin: bool,
}

impl From<UserRow> for PublicUser {
    fn from(row: UserRow) -> (r: Self) {
        PublicUser {
            id: row.id,
            username: row.username,
            email: row.email,
            created_at: row.created_at,
            is_admin: row.is_admin,
        }
    }
}

impl vstd::std_specs::convert::FromSpecImpl<UserRow> for PublicUser {
    open spec fn obeys_from_spec() -> bool {
        true
    }

    open spec fn from_spec(row: UserRow) -> PublicUser {
        public_user_of(row)
    }
}

/// The public form of a user row.
pub open spec fn public_user_of(row: UserRow) -> PublicUser {
    PublicUser {
        id: row.id,
        username: row.username,
        email: row.email,
        created_at: row.created_at,
        is_admin: row.is_admin,
    }
}

/// The public form of each row, in the same order.
pub fn public_users(rows: Vec<UserRow>) -> (r: Vec<PublicUser>)
    ensures
        r@.len() == rows@.len(),
        forall|i: int| 0 <= i < rows@.len() ==> #[trigger] r@[i] == public_user_of(rows@[i]),
{
    let mut r: Vec<PublicUser> = Vec::new();
    let mut rest = rows;
    let ghost all = rest@;
    while rest.len() > 0
        invariant
            r@.len() + rest@.len() == all.len(),
            rest@ == all.subrange(r@.len() as int, all.len() as int),
            forall|i: int| 0 <= i < r@.len() ==> #[trigger] r@[i] == public_user_of(all[i]),
        decreases rest@.len(),
    {
        let row = rest.remove(0);
        let ghost n = r@.len();
        assert(row == all[n as int]);
        r.push(PublicUser::from(row));
        assert(rest@ =~= all.subrange(r@.len() as int, all.len() as int));
    }
    r
}

/// A row of the `user_tickers` table: a ticker that a user keeps.
#[derive(Debug, Clone)]
pub struct UserTickerRow {
    pub id: i64,
    pub user_id: String,
    pub ticker: String,
    pub interval: String,
    pub range: String,
    pub added_at: String,
}

/// A request to open an account.
#[derive(Debug)]
pub struct RegisterRequest {
    pub username: String,
    pub email: String,
    pub password: String,
    /// If true, caller will also send a list of tickers to persist
    pub persist_guest_tickers: bool,
}

/// A request to log in.
#[derive(Debug)]
pub struct LoginRequest {
    pub username: String,
    pub password: String,
}

/// The answer to a successful registration or login.
#[derive(Debug)]
pub struct AuthResponse {
    pub token: String,
    pub user: PublicUser,
}

/// A plain text answer.
#[derive(Debug)]
pub struct MessageResponse {
    pub message: String,
}

impl AuthResponse {
    /// The answer carrying `token` and the public form of `row`.
    pub fn for_user(token: String, row: UserRow) -> (r: Self)
        ensures
            r.token == token,
            r.user == public_user_of(row),
    {
        AuthResponse { token, user: PublicUser::from(row) }
    }
}

} // verus!

