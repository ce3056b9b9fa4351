use speculare_server::errors::{AppError, AppErrorType};

fn bare(error_type: AppErrorType) -> AppError {
    AppError { message: None, cause: None, error_type }
}

#[test]
fn message_prefers_own_text() {
    let e = AppError {
        message: Some("custom".to_string()),
        cause: Some("why".to_string()),
        error_type: AppErrorType::DbError,
    };
    assert_eq!(e.message(), "custom");
}

#[test]
fn message_defaults_by_kind() {
    assert_eq!(bare(AppErrorType::KeyAlreadyExists).message(), "The requested item is already present");
    assert_eq!(bare(AppErrorType::RusotoError).message(), "There was an error communicating with S3");
    assert_eq!(bare(AppErrorType::PoolError).message(), "Cannot get the connection pool to the database");
    assert_eq!(bare(AppErrorType::InvalidToken).message(), "The token is invalid or has been expired");
    assert_eq!(
        bare(AppErrorType::InvalidCrendetials).message(),
        "Your email was entered incorrectly, or your password was incorrect"
    );
    assert_eq!(bare(AppErrorType::InvalidRequest).message(), "Invalid request");
    assert_eq!(bare(AppErrorType::DbError).message(), "An unexpected error has occurred");
}

#[test]
fn status_codes_by_kind() {
    assert_eq!(bare(AppErrorType::KeyAlreadyExists).status_code(), 409);
    assert_eq!(bare(AppErrorType::InvalidToken).status_code(), 401);
    assert_eq!(bare(AppErrorType::InvalidCrendetials).status_code(), 403);
    assert_eq!(bare(AppErrorType::InvalidRequest).status_code(), 400);
    assert_eq!(bare(AppErrorType::DbError).status_code(), 500);
    assert_eq!(bare(AppErrorType::PoolError).status_code(), 500);
    assert_eq!(bare(AppErrorType::RusotoError).status_code(), 500);
}

#[test]
fn error_response_carries_status_and_message() {
    let (status, body) = bare(AppErrorType::InvalidToken).error_response();
    assert_eq!(status, 401);
    assert_eq!(body.error, "The token is invalid or has been expired");
}

#[test]
fn parse_int_error_becomes_db_error() {
    let err = "12a".parse::<i64>().unwrap_err();
    let e = AppError::from_parse_int_error(&err);
    assert!(e.message.is_none());
    assert_eq!(e.error_type, AppErrorType::DbError);
    assert_eq!(e.cause, Some(err.to_string()));
    assert_eq!(e.status_code(), 500);
}
