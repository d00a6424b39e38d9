//! The error type of every handler, how each variant is answered, and how
//! database failures are classified.

use vstd::prelude::*;
use vstd::string::*;
use crate::text::{contains_seq, contains_str, str_eq, view_opt_string};

verus! {

/// Errors a request can end in.
#[derive(Debug)]
pub enum AppError {
    Validation(String),
    Unauthorized,
    Forbidden,
    NotFound(String),
    Conflict(String),
    Internal(String),
    RateLimited,
}

/// The abstract value of an error: its variant and message characters.
pub enum ErrorView {
    Validation(Seq<char>),
    Unauthorized,
    Forbidden,
    NotFound(Seq<char>),
    Conflict(Seq<char>),
    Internal(Seq<char>),
    RateLimited,
}

impl View for AppError {
    type V = ErrorView;

    open spec fn view(&self) -> ErrorView {
        match self {
            AppError::Validation(m) => ErrorView::Validation(m@),
            AppError::Unauthorized => ErrorView::Unauthorized,
            AppError::Forbidden => ErrorView::Forbidden,
            AppError::NotFound(m) => ErrorView::NotFound(m@),
            AppError::Conflict(m) => ErrorView::Conflict(m@),
            AppError::Internal(m) => ErrorView::Internal(m@),
            AppError::RateLimited => ErrorView::RateLimited,
        }
    }
}

pub open spec fn rate_limited_text() -> Seq<char> {
    "Rate limit exceeded. Please try again later."@
}

/// HTTP status answered for an error.
pub open spec fn status_of(e: ErrorView) -> u16 {
    match e {
        ErrorView::Validation(_) => 400,
        ErrorView::Unauthorized => 401,
        ErrorView::Forbidden => 403,
        ErrorView::NotFound(_) => 404,
        ErrorView::Conflict(_) => 409,
        ErrorView::Internal(_) => 500,
        ErrorView::RateLimited => 429,
    }
}

/// Machine-readable `code` field of the error body.
pub open spec fn code_of(e: ErrorView) -> Seq<char> {
    match e {
        ErrorView::Validation(_) => "VALIDATION_ERROR"@,
        ErrorView::Unauthorized => "UNAUTHORIZED"@,
        ErrorView::Forbidden => "FORBIDDEN"@,
        ErrorView::NotFound(_) => "NOT_FOUND"@,
        ErrorView::Conflict(_) => "CONFLICT"@,
        ErrorView::Internal(_) => "INTERNAL_ERROR"@,
        ErrorView::RateLimited => "RATE_LIMITED"@,
    }
}

/// `error` field of the error body; an internal error never shows its detail.
pub open spec fn public_message_of(e: ErrorView) -> Seq<char> {
    match e {
        ErrorView::Validation(m) => m,
        ErrorView::Unauthorized => "Unauthorized"@,
        ErrorView::Forbidden => "Forbidden"@,
        ErrorView::NotFound(m) => m,
        ErrorView::Conflict(m) => m,
        ErrorView::Internal(_) => "Internal server error"@,
        ErrorView::RateLimited => rate_limited_text(),
    }
}

/// Text of the error, as its `Display` would show it.
pub open spec fn message_of(e: ErrorView) -> Seq<char> {
    match e {
        ErrorView::Validation(m) => m,
        ErrorView::Unauthorized => "Unauthorized"@,
        ErrorView::Forbidden => "Forbidden"@,
        ErrorView::NotFound(m) => m,
        ErrorView::Conflict(m) => m,
        ErrorView::Internal(m) => m,
        ErrorView::RateLimited => rate_limited_text(),
    }
}

impl AppError {
    /// HTTP status code of the response for this error.
    pub fn status_code(&self) -> (r: u16)
        ensures
            r == status_of(self@),
    {
        match self {
            AppError::Validation(_) => 400,
            AppError::Unauthorized => 401,
            AppError::Forbidden => 403,
            AppError::NotFound(_) => 404,
            AppError::Conflict(_) => 409,
            AppError::Internal(_) => 500,
            AppError::RateLimited => 429,
        }
    }

    /// The `code` field of the response body.
    pub fn code(&self) -> (r: &'static str)
        ensures
            r@ == code_of(self@),
    {
        match self {
            AppError::Validation(_) => "VALIDATION_ERROR",
            AppError::Unauthorized => "UNAUTHORIZED",
            AppError::Forbidden => "FORBIDDEN",
            AppError::NotFound(_) => "NOT_FOUND",
            AppError::Conflict(_) => "CONFLICT",
            AppError::Internal(_) => "INTERNAL_ERROR",
            AppError::RateLimited => "RATE_LIMITED",
        }
    }

    /// The `error` field of the response body.
    pub fn public_message(&self) -> (r: String)
        ensures
            r@ == public_message_of(self@),
    {
        match self {
            AppError::Validation(m) => m.clone(),
            AppError::Unauthorized => String::from_str("Unauthorized"),
            AppError::Forbidden => String::from_str("Forbidden"),
            AppError::NotFound(m) => m.clone(),
            AppError::Conflict(m) => m.clone(),
            AppError::Internal(_) => String::from_str("Internal server error"),
            AppError::RateLimited => String::from_str("Rate limit exceeded. Please try again later."),
        }
    }

    /// The text of the error.
    pub fn message(&self) -> (r: String)
        ensures
            r@ == message_of(self@),
    {
        match self {
            AppError::Validation(m) => m.clone(),
            AppError::Unauthorized => String::from_str("Unauthorized"),
            AppError::Forbidden => String::from_str("Forbidden"),
            AppError::NotFound(m) => m.clone(),
            AppError::Conflict(m) => m.clone(),
            AppError::Internal(m) => m.clone(),
            AppError::RateLimited => String::from_str("Rate limit exceeded. Please try again later."),
        }
    }

    /// An internal error whose detail is `prefix` followed by `detail`.
    pub fn internal_with(prefix: &str, detail: &str) -> (r: AppError)
        ensures
            r@ == ErrorView::Internal(prefix@ + detail@),
    {
        let mut m = String::from_str(prefix);
        m.append(detail);
        AppError::Internal(m)
    }

    /// A validation error with the given message.
    pub fn validation(msg: &str) -> (r: AppError)
        ensures
            r@ == ErrorView::Validation(msg@),
    {
        AppError::Validation(String::from_str(msg))
    }

    /// A validation error whose message is `prefix` followed by `detail`.
    pub fn validation_with(prefix: &str, detail: &str) -> (r: AppError)
        ensures
            r@ == ErrorView::Validation(prefix@ + detail@),
    {
        let mut m = String::from_str(prefix);
        m.append(detail);
        AppError::Validation(m)
    }

    /// A not-found error with the given message.
    pub fn not_found(msg: &str) -> (r: AppError)
        ensures
            r@ == ErrorView::NotFound(msg@),
    {
        AppError::NotFound(String::from_str(msg))
    }

    /// The error for a JSON (de)serialisation failure described by `detail`.
    pub fn from_json_error(detail: &str) -> (r: AppError)
        ensures
            r@ == ErrorView::Internal("JSON error: "@ + detail@),
    {
        AppError::internal_with("JSON error: ", detail)
    }

    /// The error for an HTTP client failure described by `detail`.
    pub fn from_http_error(detail: &str) -> (r: AppError)
        ensures
            r@ == ErrorView::Internal("HTTP client error: "@ + detail@),
    {
        AppError::internal_with("HTTP client error: ", detail)
    }
}

/// An internal error answers with a fixed message and never shows its detail.
pub proof fn lemma_internal_errors_hide_detail(detail: Seq<char>)
    ensures
        public_message_of(ErrorView::Internal(detail)) == "Internal server error"@,
        status_of(ErrorView::Internal(detail)) == 500,
        code_of(ErrorView::Internal(detail)) == "INTERNAL_ERROR"@,
{
}

/// What the handlers read of a database failure.
pub enum DbErrorKind {
    /// A query that had to return a row returned none.
    RowNotFound,
    /// The server rejected the statement: SQLSTATE code, server message, and
    /// the text of the database error itself.
    Database { code: Option<String>, message: String, detail: String },
    /// No connection became free in time.
    PoolTimedOut,
    /// The connection failed: whether the I/O error was a timeout, and its OS code.
    Io { timed_out: bool, os_code: Option<i32> },
    /// Any other failure.
    Other,
}

/// A database failure, with the text of the whole error.
pub struct DbError {
    pub kind: DbErrorKind,
    pub text: String,
}

/// The error a database failure turns into.
pub open spec fn db_error_to_app(e: DbError) -> ErrorView {
    match e.kind {
        DbErrorKind::RowNotFound => ErrorView::NotFound("Resource not found"@),
        DbErrorKind::Database { code, message, detail } => match code {
            Some(c) => if c@ == "23505"@ {
                ErrorView::Conflict("Resource already exists"@)
            } else if c@ == "23503"@ {
                ErrorView::Validation("Referenced resource does not exist or has been deleted"@)
            } else if c@ == "23502"@ {
                ErrorView::Validation("Required field is missing: "@ + message@)
            } else if c@ == "23514"@ {
                ErrorView::Validation("Data validation failed: "@ + message@)
            } else {
                ErrorView::Internal("Database error: "@ + c@)
            },
            None => ErrorView::Internal("Database error: "@ + detail@),
        },
        DbErrorKind::PoolTimedOut => ErrorView::Internal("Server is busy, please try again"@),
        _ => ErrorView::Internal("Database error: "@ + e.text@),
    }
}

/// Whether the SQLSTATE code of a database failure is `expected`.
pub open spec fn db_code_is(e: DbError, expected: Seq<char>) -> bool {
    match e.kind {
        DbErrorKind::Database { code: Some(c), .. } => c@ == expected,
        _ => false,
    }
}

pub(crate) fn code_is(e: &DbError, expected: &str) -> (r: bool)
    ensures
        r == db_code_is(*e, expected@),
{
    match &e.kind {
        DbErrorKind::Database { code: Some(c), .. } => str_eq(c.as_str(), expected),
        _ => false,
    }
}

impl AppError {
    /// The error a database failure is answered with.
    pub fn from_db_error(e: DbError) -> (r: AppError)
        ensures
            r@ == db_error_to_app(e),
    {
        let ghost g = e;
        if code_is(&e, "23505") {
            return AppError::Conflict(String::from_str("Resource already exists"));
        }
        if code_is(&e, "23503") {
            return AppError::validation("Referenced resource does not exist or has been deleted");
        }
        let text = e.text;
        match e.kind {
            DbErrorKind::RowNotFound => AppError::not_found("Resource not found"),
            DbErrorKind::Database { code, message, detail } => match code {
                Some(c) => {
                    if str_eq(c.as_str(), "23502") {
                        AppError::Validation(
                            AppError::internal_text("Required field is missing: ", message.as_str()),
                        )
                    } else if str_eq(c.as_str(), "23514") {
                        AppError::Validation(
                            AppError::internal_text("Data validation failed: ", message.as_str()),
                        )
                    } else {
                        AppError::internal_with("Database error: ", c.as_str())
                    }
                },
                None => AppError::internal_with("Database error: ", detail.as_str()),
            },
            DbErrorKind::PoolTimedOut => AppError::Internal(
                String::from_str("Server is busy, please try again"),
            ),
            _ => AppError::internal_with("Database error: ", text.as_str()),
        }
    }

    fn internal_text(prefix: &str, detail: &str) -> (r: String)
        ensures
            r@ == prefix@ + detail@,
    {
        let mut m = String::from_str(prefix);
        m.append(detail);
        m
    }
}

/// Whether a failed query is worth one more attempt: a timed-out or broken
/// connection, a connection the server closed or terminated, or a pool timeout.
pub open spec fn is_transient_spec(e: DbError) -> bool {
    match e.kind {
        DbErrorKind::Io { timed_out, os_code } => timed_out || os_code == Some(32i32),
        DbErrorKind::Database { message, .. } => contains_seq(message@, "closed"@)
            || contains_seq(message@, "terminated"@),
        DbErrorKind::PoolTimedOut => true,
        _ => false,
    }
}

/// Whether a failed query should be retried once.
pub fn is_transient(e: &DbError) -> (r: bool)
    ensures
        r == is_transient_spec(*e),
{
    match &e.kind {
        DbErrorKind::Io { timed_out, os_code } => *timed_out || match os_code {
            Some(c) => *c == 32,
            None => false,
        },
        DbErrorKind::Database { message, .. } => contains_str(message.as_str(), "closed")
            || contains_str(message.as_str(), "terminated"),
        DbErrorKind::PoolTimedOut => true,
        _ => false,
    }
}

/// Whether a query runs once more after its run number `attempt` (counted
/// from 1) failed with `e`: only a first run that failed transiently is
/// followed by a second.
pub open spec fn retry_spec(attempt: int, e: DbError) -> bool {
    attempt == 1 && is_transient_spec(e)
}

/// Decides whether a failed run of a query is followed by another.
pub fn retry_again(attempt: u32, e: &DbError) -> (r: bool)
    ensures
        r == retry_spec(attempt as int, *e),
{
    attempt == 1 && is_transient(e)
}

/// A query runs at most twice: a first run is repeated exactly when it
/// failed transiently, and no run after the first is ever repeated,
/// whatever its error.
pub proof fn lemma_retry_at_most_once(attempt: int, e: DbError)
    ensures
        retry_spec(1, e) == is_transient_spec(e),
        attempt >= 2 ==> !retry_spec(attempt, e),
{
}

} // verus!
