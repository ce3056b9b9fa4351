use vstd::prelude::*;

verus! {

broadcast use vstd::string::group_string_axioms;

/// The kind of failure an [`AppError`] reports.
#[derive(Debug, Clone, Copy, PartialEq, Eq, Structural)]
pub enum AppErrorType {
    RusotoError,
    DbError,
    PoolError,
    InvalidCrendetials,
    KeyAlreadyExists,
    InvalidToken,
    InvalidRequest,
}

/// An error as the server reports it: an optional message meant for the
/// client, an optional cause kept for the logs, and its kind.
#[derive(Debug)]
pub struct AppError {
    pub message: Option<String>,
    pub cause: Option<String>,
    pub error_type: AppErrorType,
}

/// The body of the JSON answer sent for an [`AppError`].
#[derive(Debug)]
pub struct AppErrorResponse {
    pub error: String,
}

/// The error `str::parse` reports for a text that is not an integer.
#[verifier::external_type_specification]
#[verifier::external_body]
pub struct ExParseIntError(std::num::ParseIntError);

/// An error of the API routes, as the client sees it.
#[derive(Debug)]
pub enum ApiError {
    /// The request is refused, with an optional explanation.
    InvalidRequestError(Option<String>),
    /// The caller is not allowed to make the request.
    AuthorizationError(Option<String>),
}

/// The text shown for an error of kind `t` that carries no message of its own.
pub open spec fn default_message(t: AppErrorType) -> Seq<char> {
    match t {
        AppErrorType::KeyAlreadyExists => "The requested item is already present"@,
        AppErrorType::RusotoError => "There was an error communicating with S3"@,
        AppErrorType::PoolError => "Cannot get the connection pool to the database"@,
        AppErrorType::InvalidToken => "The token is invalid or has been expired"@,
        AppErrorType::InvalidCrendetials =>
            "Your email was entered incorrectly, or your password was incorrect"@,
        AppErrorType::InvalidRequest => "Invalid request"@,
        AppErrorType::DbError => "An unexpected error has occurred"@,
    }
}

/// The HTTP status code that answers an error of kind `t`.
pub open spec fn status_of(t: AppErrorType) -> u16 {
    match t {
        AppErrorType::KeyAlreadyExists => 409,
        AppErrorType::InvalidToken => 401,
        AppErrorType::InvalidCrendetials => 403,
        AppErrorType::InvalidRequest => 400,
        _ => 500,
    }
}

impl AppError {
    /// The text the client sees: the error's own message, or else the
    /// default text of its kind.
    pub open spec fn message_text(&self) -> Seq<char> {
        match self.message {
            Some(m) => m@,
            None => default_message(self.error_type),
        }
    }

    /// An error of kind `InvalidRequest` with the given message and no cause.
    pub open spec fn is_invalid_request(&self, text: Seq<char>) -> bool {
        &&& self.error_type == AppErrorType::InvalidRequest
        &&& self.cause is None
        &&& self.message matches Some(m) && m@ == text
    }

    /// Builds an error of kind `error_type` whose message is `text`.
    pub fn with_message(text: &str, error_type: AppErrorType) -> (r: AppError)
        ensures
            r.message matches Some(m) && m@ == text@,
            r.cause is None,
            r.error_type == error_type,
    {
        AppError { message: Some(text.to_string()), cause: None, error_type }
    }

    /// The text the client sees for this error.
    pub fn message(&self) -> (r: String)
        ensures
            r@ == self.message_text(),
    {
        match &self.message {
            Some(message) => message.clone(),
            None => match self.error_type {
                AppErrorType::KeyAlreadyExists => "The requested item is already present".to_string(),
                AppErrorType::RusotoError => "There was an error communicating with S3".to_string(),
                AppErrorType::PoolError => "Cannot get the connection pool to the database".to_string(),
                AppErrorType::InvalidToken => "The token is invalid or has been expired".to_string(),
                AppErrorType::InvalidCrendetials =>
                    "Your email was entered incorrectly, or your password was incorrect".to_string(),
                AppErrorType::InvalidRequest => "Invalid request".to_string(),
                AppErrorType::DbError => "An unexpected error has occurred".to_string(),
            },
        }
    }

    /// The error reported for a text that does not parse as an integer: a
    /// database error with no message for the client, whose cause is the
    /// parse error's displayed text.
    pub fn from_parse_int_error(error: &std::num::ParseIntError) -> (r: AppError)
        ensures
            r.message is None,
            r.error_type == AppErrorType::DbError,
            r.cause matches Some(c) && vstd::string::to_string_from_display_ensures(error, c),
    {
        AppError { message: None, cause: Some(error.to_string()), error_type: AppErrorType::DbError }
    }

    /// The HTTP status code of the answer to this error.
    pub fn status_code(&self) -> (r: u16)
        ensures
            r == status_of(self.error_type),
    {
        match self.error_type {
            AppErrorType::KeyAlreadyExists => 409,
            AppErrorType::InvalidToken => 401,
            AppErrorType::InvalidCrendetials => 403,
            AppErrorType::InvalidRequest => 400,
            _ => 500,
        }
    }

    /// The answer to this error: its status code and the JSON body that
    /// carries its message.
    pub fn error_response(&self) -> (r: (u16, AppErrorResponse))
        ensures
            r.0 == status_of(self.error_type),
            r.1.error@ == self.message_text(),
    {
        (self.status_code(), AppErrorResponse { error: self.message() })
    }
}

} // verus!
