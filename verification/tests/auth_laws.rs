use backend::auth::jwt::validate_token_at;
use backend::handlers::auth::next_restore;
use backend::models::UserTickerRow;
use backend::stocks_register::StocksRegister;
use backend::auth::extractor::{bearer_token, check_bearer, AdminUser, AuthUser, SessionContext, TokenCheck};
use backend::auth::jwt::{claims_at, create_token, create_token_at, validate_token, Claims, TOKEN_LIFETIME_SECS};
use backend::errors::AppError;
use backend::handlers::admin::{check_deletion, check_role_change, deletion_outcome, role_change_outcome, ChangeRoleRequest};
use backend::handlers::auth::{
    default_interval, default_range, logout_message, require_account, require_password, require_user,
    validate_registration, RegisterPayload,
};
use backend::models::{public_users, AuthResponse, PublicUser, UserRow};

const SECRET: &str = "a-long-random-test-secret";

fn now() -> i64 {
    std::time::SystemTime::now().duration_since(std::time::UNIX_EPOCH).unwrap().as_secs() as i64
}

fn row(id: &str, admin: bool) -> UserRow {
    UserRow {
        id: id.to_string(),
        username: format!("name-{id}"),
        email: format!("{id}@example.com"),
        password_hash: "hash".to_string(),
        created_at: "2024-01-01".to_string(),
        updated_at: "2024-01-02".to_string(),
        is_admin: admin,
    }
}

fn payload(username: &str, email: &str, password: &str) -> RegisterPayload {
    RegisterPayload {
        username: username.to_string(),
        email: email.to_string(),
        password: password.to_string(),
        guest_tickers: vec![],
        guest_session_id: None,
    }
}

fn admin(id: &str) -> AdminUser {
    AdminUser { user_id: id.to_string(), username: "boss".to_string() }
}

#[test]
fn a_created_token_validates_back_to_its_user() {
    let token = create_token("user-1", "alice", true, SECRET).ok().unwrap();
    assert_eq!(token.split('.').count(), 3);
    let claims = validate_token(&token, SECRET).ok().unwrap();
    assert_eq!(claims.sub, "user-1");
    assert_eq!(claims.username, "alice");
    assert!(claims.is_admin);
    assert_eq!(claims.exp - claims.iat, TOKEN_LIFETIME_SECS);
    assert_eq!(TOKEN_LIFETIME_SECS, 72 * 3600);
    assert!((claims.iat - now()).abs() <= 5);
}

#[test]
fn a_token_is_refused_under_another_secret_or_when_expired() {
    let token = create_token("user-1", "alice", false, SECRET).ok().unwrap();
    assert!(matches!(validate_token(&token, "another-secret"), Err(AppError::Jwt(_))));
    assert!(matches!(validate_token("not-a-token", SECRET), Err(AppError::Jwt(_))));
    let old = create_token_at("user-1", "alice", false, SECRET, now() - 4 * 86400).ok().unwrap();
    assert!(matches!(validate_token(&old, SECRET), Err(AppError::Jwt(_))));
}

#[test]
fn claims_expire_seventy_two_hours_after_issue() {
    let c: Claims = claims_at("u", "n", false, 1_000);
    assert_eq!(c.iat, 1_000);
    assert_eq!(c.exp, 1_000 + 259_200);
    assert_eq!(c.sub, "u");
    assert_eq!(c.username, "n");
}

#[test]
fn the_bearer_prefix_is_required_exactly() {
    assert_eq!(bearer_token(Some("Bearer abc.def")), Some("abc.def".to_string()));
    assert_eq!(bearer_token(Some("Bearer ")), Some(String::new()));
    assert_eq!(bearer_token(Some("bearer abc")), None);
    assert_eq!(bearer_token(Some("Bearer")), None);
    assert_eq!(bearer_token(None), None);
}

#[test]
fn users_are_resolved_from_their_token() {
    let token = create_token("user-7", "bob", false, SECRET).ok().unwrap();
    let header = format!("Bearer {token}");
    let user = AuthUser::from_authorization(Some(&header), SECRET).ok().unwrap();
    assert_eq!(user.user_id, "user-7");
    assert_eq!(user.username, "bob");
    assert!(!user.is_admin);

    let missing = AuthUser::from_authorization(None, SECRET).err().unwrap();
    assert_eq!((missing.0, missing.1.as_str()), (401, "Missing or malformed Authorization header"));
    let bad = AuthUser::from_authorization(Some("Bearer nope"), SECRET).err().unwrap();
    assert_eq!((bad.0, bad.1.as_str()), (401, "Invalid or expired token"));
}

#[test]
fn only_administrators_pass_the_admin_check() {
    let user_token = create_token("user-7", "bob", false, SECRET).ok().unwrap();
    let refused = AdminUser::from_authorization(Some(&format!("Bearer {user_token}")), SECRET).err().unwrap();
    assert_eq!((refused.0, refused.1.as_str()), (403, "Admin access required"));

    let admin_token = create_token("root-1", "root", true, SECRET).ok().unwrap();
    let a = AdminUser::from_authorization(Some(&format!("Bearer {admin_token}")), SECRET).ok().unwrap();
    assert_eq!(a.user_id, "root-1");
    assert_eq!(a.username, "root");

    let missing = AdminUser::from_check(TokenCheck::Missing).err().unwrap();
    assert_eq!(missing.0, 401);
    let invalid = AdminUser::from_check(TokenCheck::Invalid).err().unwrap();
    assert_eq!((invalid.0, invalid.1.as_str()), (401, "Invalid or expired token"));
}

#[test]
fn sessions_prefer_a_valid_token_then_the_guest_header() {
    let token = create_token("user-3", "carol", false, SECRET).ok().unwrap();
    let header = format!("Bearer {token}");
    let s = SessionContext::resolve(Some(&header), Some("guest-1".to_string()), SECRET).ok().unwrap();
    assert_eq!(s.session_id, "user-3");
    assert_eq!(s.user_id, Some("user-3".to_string()));

    let g = SessionContext::resolve(Some("Bearer broken"), Some("guest-1".to_string()), SECRET).ok().unwrap();
    assert_eq!(g.session_id, "guest-1");
    assert_eq!(g.user_id, None);

    let none = SessionContext::resolve(None, None, SECRET).err().unwrap();
    assert_eq!((none.0, none.1.as_str()), (401, "Provide a Bearer token or X-Guest-Session header"));

    assert!(matches!(check_bearer(Some("Basic xyz"), SECRET), TokenCheck::Missing));
}

#[test]
fn registration_needs_names_and_eight_password_bytes() {
    let blank = validate_registration(&payload(" \t\u{3000}", "a@b.c", "password1")).err().unwrap();
    assert!(matches!(blank, AppError::BadRequest(ref m) if m == "Username and email are required"));
    let blank_mail = validate_registration(&payload("alice", "", "password1")).err().unwrap();
    assert!(matches!(blank_mail, AppError::BadRequest(ref m) if m == "Username and email are required"));
    let short = validate_registration(&payload("alice", "a@b.c", "1234567")).err().unwrap();
    assert!(matches!(short, AppError::BadRequest(ref m) if m == "Password must be at least 8 characters"));
    assert!(validate_registration(&payload("alice", "a@b.c", "12345678")).is_ok());
    // the length is counted in bytes: four two-byte characters are enough
    assert!(validate_registration(&payload("alice", "a@b.c", "éééé")).is_ok());
    assert!(validate_registration(&payload("alice", "a@b.c", "ééé")).is_err());
}

#[test]
fn unknown_users_and_wrong_passwords_get_the_same_answer() {
    let unknown = require_user(None).err().unwrap();
    let wrong = require_password(false).err().unwrap();
    assert_eq!(unknown.response_parts(), wrong.response_parts());
    assert_eq!(unknown.response_parts(), (401, "Invalid username or password".to_string()));
    assert!(require_password(true).is_ok());
    assert_eq!(require_user(Some(row("u1", false))).ok().unwrap().id, "u1");
}

#[test]
fn account_lookups_and_logout_answers() {
    let missing = require_account(None).err().unwrap();
    assert_eq!(missing.response_parts(), (404, "User not found".to_string()));
    let user: PublicUser = require_account(Some(row("u2", true))).ok().unwrap();
    assert_eq!(user.id, "u2");
    assert_eq!(user.email, "u2@example.com");
    assert!(user.is_admin);
    assert_eq!(logout_message().message, "Logged out successfully");
    assert_eq!(default_interval(), "1d");
    assert_eq!(default_range(), "3mo");
}

#[test]
fn public_users_drop_the_hash_and_keep_the_order() {
    let users = public_users(vec![row("a", false), row("b", true)]);
    assert_eq!(users.len(), 2);
    assert_eq!(users[0].id, "a");
    assert_eq!(users[1].id, "b");
    assert_eq!(users[1].created_at, "2024-01-01");
    let answer = AuthResponse::for_user("tok".to_string(), row("c", false));
    assert_eq!(answer.token, "tok");
    assert_eq!(answer.user.username, "name-c");
}

#[test]
fn administrators_cannot_delete_or_demote_themselves() {
    let me = admin("root");
    let own = check_deletion(&"root".to_string(), &me).err().unwrap();
    assert_eq!(own.response_parts(), (400, "Cannot delete your own account".to_string()));
    assert!(check_deletion(&"other".to_string(), &me).is_ok());

    let demote = check_role_change(&"root".to_string(), &me, &ChangeRoleRequest { is_admin: false }).err().unwrap();
    assert_eq!(demote.response_parts(), (400, "Cannot remove your own admin rights".to_string()));
    assert!(check_role_change(&"root".to_string(), &me, &ChangeRoleRequest { is_admin: true }).is_ok());
    assert!(check_role_change(&"other".to_string(), &me, &ChangeRoleRequest { is_admin: false }).is_ok());
}

#[test]
fn changes_that_touch_no_row_are_not_found() {
    let gone = deletion_outcome(&"u9".to_string(), 0).err().unwrap();
    assert_eq!(gone.response_parts(), (404, "User u9 not found".to_string()));
    assert_eq!(deletion_outcome(&"u9".to_string(), 1).ok().unwrap().message, "User u9 deleted");
    let unchanged = role_change_outcome(&"u9".to_string(), 0).err().unwrap();
    assert_eq!(unchanged.response_parts(), (404, "User u9 not found".to_string()));
    assert!(role_change_outcome(&"u9".to_string(), 2).is_ok());
}

#[test]
fn a_fresh_token_is_accepted_until_its_expiry_plus_leeway() {
    let issued = 1_700_000_000;
    let token = create_token_at("user-5", "dora", true, SECRET, issued).ok().unwrap();
    let last = (issued + TOKEN_LIFETIME_SECS + 60) as u64;
    let c = validate_token_at(&token, SECRET, last).ok().unwrap();
    assert_eq!((c.sub.as_str(), c.username.as_str(), c.is_admin), ("user-5", "dora", true));
    assert_eq!((c.iat, c.exp), (issued, issued + TOKEN_LIFETIME_SECS));
    let late = validate_token_at(&token, SECRET, last + 1).err().unwrap();
    assert!(matches!(late, AppError::Jwt(_)));
    assert_eq!(late.response_parts(), (401, "Invalid token: ExpiredSignature".to_string()));
    assert!(validate_token_at(&token, "other-secret", issued as u64).is_err());
}

#[test]
fn restoring_fetches_only_tickers_not_yet_held() {
    let saved_row = |t: &str| UserTickerRow {
        id: 1,
        user_id: "u".to_string(),
        ticker: t.to_string(),
        interval: "1d".to_string(),
        range: "3mo".to_string(),
        added_at: "now".to_string(),
    };
    let saved = vec![saved_row("aapl"), saved_row("msft"), saved_row("MSFT")];
    let mut register: StocksRegister<f64> = StocksRegister::new();
    register.record_quotes("AAPL", vec![1], vec![1.0], vec![1.0], vec![1.0], vec![1.0]);
    assert_eq!(next_restore(&register, &saved, 0), Some(1));
    register.record_quotes("msft", vec![1], vec![1.0], vec![1.0], vec![1.0], vec![1.0]);
    assert_eq!(next_restore(&register, &saved, 2), None);
    assert_eq!(next_restore(&register, &saved, 0), None);
}
