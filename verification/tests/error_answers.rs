use backend::auth::jwt::validate_token;
use backend::errors::{AppError, DatabaseError};

#[test]
fn each_error_gets_its_status_and_message() {
    let unique = AppError::Sqlx(DatabaseError {
        message: Some("UNIQUE constraint failed: users.username".to_string()),
    });
    assert_eq!(unique.response_parts(), (409, "Username or email already taken".to_string()));

    let other_db = AppError::Sqlx(DatabaseError { message: Some("no such table: users".to_string()) });
    assert_eq!(other_db.response_parts(), (500, "Database error".to_string()));

    let pool = AppError::Sqlx(DatabaseError { message: None });
    assert_eq!(pool.response_parts(), (500, "Database error".to_string()));

    assert_eq!(AppError::Auth("no".to_string()).response_parts(), (401, "no".to_string()));
    assert_eq!(AppError::NotFound("gone".to_string()).response_parts(), (404, "gone".to_string()));
    assert_eq!(AppError::BadRequest("bad".to_string()).response_parts(), (400, "bad".to_string()));
    assert_eq!(AppError::Internal("oops".to_string()).response_parts(), (500, "oops".to_string()));
}

#[test]
fn token_errors_are_unauthorized_with_their_text() {
    let err = validate_token("x.y.z", "secret").err().unwrap();
    let (status, message) = err.response_parts();
    assert_eq!(status, 401);
    assert!(message.starts_with("Invalid token: "));
    assert!(message.len() > "Invalid token: ".len());
}

#[test]
fn a_lower_case_unique_is_not_a_uniqueness_violation() {
    let e = AppError::Sqlx(DatabaseError { message: Some("unique constraint failed".to_string()) });
    assert_eq!(e.response_parts().0, 500);
}

#[test]
fn the_token_error_text_follows_the_prefix() {
    let err = validate_token("x.y.z", "secret").err().unwrap();
    match &err {
        AppError::Jwt(t) => {
            assert_eq!(t.text, t.source.to_string());
            assert_eq!(err.response_parts().1, format!("Invalid token: {}", t.source));
        },
        _ => panic!("a token error"),
    }
}
