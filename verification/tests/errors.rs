use backend::adapters::db::adapter::DbError;
use backend::adapters::llm::adapter::LlmError;
use backend::adapters::tmdb::adapter::TmdbError;
use backend::errors::AppError;
use backend::text::decimal_string;

#[test]
fn decimal_rendering() {
    assert_eq!(decimal_string(0), "0");
    assert_eq!(decimal_string(7), "7");
    assert_eq!(decimal_string(10), "10");
    assert_eq!(decimal_string(12345), "12345");
    assert_eq!(decimal_string(u64::MAX), u64::MAX.to_string());
}

#[test]
fn taken_username_is_a_conflict() {
    let a = AppError::from_db_error(DbError::UsernameConflict("bob".to_string()));
    assert!(matches!(&a, AppError::Conflict(m) if m == "username 'bob' already exists"));
    assert_eq!(a.status_code(), 409);
    assert_eq!(a.to_string(), "Conflict: username 'bob' already exists");
}

#[test]
fn missing_row_is_not_found() {
    let a = AppError::from_db_error(DbError::NotFound);
    assert!(matches!(a, AppError::NotFound));
    assert_eq!(a.response_parts(), (404, "Not found".to_string()));
}

#[test]
fn driver_failure_is_a_database_error() {
    let a = AppError::from_db_error(DbError::Sqlx("pool timed out".to_string()));
    assert_eq!(a.status_code(), 500);
    assert_eq!(a.to_string(), "Database error: Database error: pool timed out");
}

#[test]
fn upstream_failures_are_bad_gateway() {
    let t = AppError::from(TmdbError::Api("401 Unauthorized".to_string()));
    assert_eq!(t.response_parts(), (502, "TMDB error: API returned an error: 401 Unauthorized".to_string()));
    let h = AppError::from(TmdbError::Http("timeout".to_string()));
    assert_eq!(h.to_string(), "TMDB error: HTTP request failed: timeout");
    let l = AppError::from(LlmError::ParseFailed { attempts: 3, last_error: "EOF".to_string() });
    assert_eq!(l.status_code(), 502);
    assert_eq!(l.to_string(), "LLM error: Failed to parse LLM response after 3 attempt(s): EOF");
    let api = AppError::from(LlmError::Api("no key".to_string()));
    assert_eq!(api.to_string(), "LLM error: API returned an error: no key");
}

#[test]
fn client_failures() {
    assert_eq!(AppError::BadRequest("x".to_string()).response_parts(), (400, "Bad request: x".to_string()));
    assert_eq!(AppError::ValidationError("y".to_string()).response_parts(), (422, "Validation error: y".to_string()));
    assert_eq!(AppError::Conflict("z".to_string()).response_parts(), (409, "Conflict: z".to_string()));
    assert_eq!(AppError::Db(DbError::NotFound).response_parts(), (500, "Database error: Not found".to_string()));
}

#[test]
fn inner_error_texts() {
    assert_eq!(DbError::UsernameConflict("amy".to_string()).to_string(), "Username already exists: amy");
    assert_eq!(LlmError::Http("reset".to_string()).to_string(), "HTTP request failed: reset");
    assert_eq!(
        LlmError::ParseFailed { attempts: 12, last_error: "bad".to_string() }.to_string(),
        "Failed to parse LLM response after 12 attempt(s): bad"
    );
}

