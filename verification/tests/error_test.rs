use backend::error::{AppError, DbError, DbErrorKind, is_transient, retry_again};

fn db(kind: DbErrorKind, text: &str) -> DbError {
    DbError { kind, text: text.to_string() }
}

fn database(code: Option<&str>, message: &str) -> DbErrorKind {
    DbErrorKind::Database {
        code: code.map(|c| c.to_string()),
        message: message.to_string(),
        detail: format!("db says {}", message),
    }
}

#[test]
fn validation_error_returns_400_with_code() {
    let e = AppError::Validation("title is required".to_string());
    assert_eq!(e.status_code(), 400);
    assert_eq!(e.public_message(), "title is required");
    assert_eq!(e.code(), "VALIDATION_ERROR");
}

#[test]
fn unauthorized_error_returns_401_with_code() {
    let e = AppError::Unauthorized;
    assert_eq!(e.status_code(), 401);
    assert_eq!(e.code(), "UNAUTHORIZED");
}

#[test]
fn forbidden_error_returns_403_with_code() {
    let e = AppError::Forbidden;
    assert_eq!(e.status_code(), 403);
    assert_eq!(e.code(), "FORBIDDEN");
}

#[test]
fn not_found_error_returns_404_with_code() {
    let e = AppError::NotFound("Product not found".to_string());
    assert_eq!(e.status_code(), 404);
    assert_eq!(e.public_message(), "Product not found");
    assert_eq!(e.code(), "NOT_FOUND");
}

#[test]
fn conflict_error_returns_409_with_code() {
    let e = AppError::Conflict("Email already registered".to_string());
    assert_eq!(e.status_code(), 409);
    assert_eq!(e.public_message(), "Email already registered");
    assert_eq!(e.code(), "CONFLICT");
}

#[test]
fn internal_error_returns_500_and_hides_real_message() {
    let e = AppError::Internal("leaked db secret detail".to_string());
    assert_eq!(e.status_code(), 500);
    assert_eq!(e.public_message(), "Internal server error");
    assert_eq!(e.code(), "INTERNAL_ERROR");
    assert_eq!(e.message(), "leaked db secret detail");
}

#[test]
fn rate_limited_error_returns_429() {
    let e = AppError::RateLimited;
    assert_eq!(e.status_code(), 429);
    assert_eq!(e.code(), "RATE_LIMITED");
    assert_eq!(e.public_message(), "Rate limit exceeded. Please try again later.");
    assert_eq!(e.message(), "Rate limit exceeded. Please try again later.");
}

#[test]
fn sqlx_row_not_found_converts_to_not_found() {
    let app_err = AppError::from_db_error(db(DbErrorKind::RowNotFound, "no rows returned"));
    assert!(matches!(app_err, AppError::NotFound(_)));
    assert_eq!(app_err.message(), "Resource not found");
}

#[test]
fn sqlx_pool_timed_out_converts_to_internal() {
    let app_err = AppError::from_db_error(db(DbErrorKind::PoolTimedOut, "pool timed out"));
    assert!(matches!(app_err, AppError::Internal(_)));
    assert_eq!(app_err.message(), "Server is busy, please try again");
}

#[test]
fn unique_violation_converts_to_conflict() {
    let e = AppError::from_db_error(db(database(Some("23505"), "duplicate key"), "x"));
    assert!(matches!(e, AppError::Conflict(ref m) if m == "Resource already exists"));
}

#[test]
fn foreign_key_violation_converts_to_validation() {
    let e = AppError::from_db_error(db(database(Some("23503"), "fk"), "x"));
    assert!(matches!(e, AppError::Validation(ref m)
        if m == "Referenced resource does not exist or has been deleted"));
}

#[test]
fn not_null_and_check_violations_name_the_server_message() {
    let e = AppError::from_db_error(db(database(Some("23502"), "column title"), "x"));
    assert_eq!(e.message(), "Required field is missing: column title");
    assert_eq!(e.status_code(), 400);
    let e = AppError::from_db_error(db(database(Some("23514"), "price_check"), "x"));
    assert_eq!(e.message(), "Data validation failed: price_check");
}

#[test]
fn other_database_codes_are_internal() {
    let e = AppError::from_db_error(db(database(Some("42P01"), "no table"), "x"));
    assert_eq!(e.message(), "Database error: 42P01");
    let e = AppError::from_db_error(db(database(None, "boom"), "x"));
    assert_eq!(e.message(), "Database error: db says boom");
    let e = AppError::from_db_error(db(DbErrorKind::Other, "protocol error"));
    assert_eq!(e.message(), "Database error: protocol error");
    assert_eq!(e.status_code(), 500);
}

#[test]
fn json_and_http_errors_are_internal() {
    assert_eq!(AppError::from_json_error("eof").message(), "JSON error: eof");
    assert_eq!(AppError::from_http_error("timeout").message(), "HTTP client error: timeout");
}

#[test]
fn transient_errors_are_retried() {
    assert!(is_transient(&db(DbErrorKind::Io { timed_out: true, os_code: None }, "")));
    assert!(is_transient(&db(DbErrorKind::Io { timed_out: false, os_code: Some(32) }, "")));
    assert!(!is_transient(&db(DbErrorKind::Io { timed_out: false, os_code: Some(104) }, "")));
    assert!(is_transient(&db(database(None, "connection closed"), "")));
    assert!(is_transient(&db(database(Some("57P01"), "terminating connection: terminated"), "")));
    assert!(!is_transient(&db(database(Some("23505"), "duplicate key"), "")));
    assert!(is_transient(&db(DbErrorKind::PoolTimedOut, "")));
    assert!(!is_transient(&db(DbErrorKind::RowNotFound, "")));
}

#[test]
fn only_a_first_transient_failure_is_retried() {
    let timed_out = db(DbErrorKind::Io { timed_out: true, os_code: None }, "");
    let duplicate = db(database(Some("23505"), "duplicate key"), "");
    assert!(retry_again(1, &timed_out));
    assert!(!retry_again(2, &timed_out));
    assert!(!retry_again(3, &db(DbErrorKind::PoolTimedOut, "")));
    assert!(!retry_again(1, &duplicate));
    assert!(!retry_again(1, &db(DbErrorKind::RowNotFound, "")));
}
