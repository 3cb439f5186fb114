//! The error type of the server side, and what each error becomes in an HTTP
//! answer: a status code and a body, as plain values.

use vstd::prelude::*;
use vstd::string::StringExecFns;
use crate::text::owned;

verus! {

/// A failure of one operation. It ends that operation, never the process.
#[derive(Debug)]
pub enum AppError {
    /// The position store or the broadcast channel could not be reached, or
    /// refused the operation.
    DbError(String),
    /// The credential was missing or invalid.
    AuthError(String),
    /// The request was not acceptable as it stood.
    ValidationError(String),
    /// Anything else.
    InternalError,
}

/// What an `AppError` holds, as mathematical values.
pub ghost enum AppErrorView {
    DbError(Seq<char>),
    AuthError(Seq<char>),
    ValidationError(Seq<char>),
    InternalError,
}

impl View for AppError {
    type V = AppErrorView;

    open spec fn view(&self) -> AppErrorView {
        match self {
            AppError::DbError(m) => AppErrorView::DbError(m@),
            AppError::AuthError(m) => AppErrorView::AuthError(m@),
            AppError::ValidationError(m) => AppErrorView::ValidationError(m@),
            AppError::InternalError => AppErrorView::InternalError,
        }
    }
}

/// The status code of the answer to a request that failed with `e`.
pub open spec fn status_code_spec(e: AppErrorView) -> int {
    match e {
        AppErrorView::DbError(_) => 500,
        AppErrorView::AuthError(_) => 401,
        AppErrorView::ValidationError(_) => 400,
        AppErrorView::InternalError => 500,
    }
}

/// The body of that answer. Only a validation error shows its own message;
/// the others show a fixed text, so that no detail of the store or of the
/// credential check leaves the server.
pub open spec fn response_body_spec(e: AppErrorView) -> Seq<char> {
    match e {
        AppErrorView::DbError(_) => "Database error"@,
        AppErrorView::AuthError(_) => "Authentication failed"@,
        AppErrorView::ValidationError(m) => m,
        AppErrorView::InternalError => "Internal server error"@,
    }
}

/// The error written out in full, for a log.
pub open spec fn message_spec(e: AppErrorView) -> Seq<char> {
    match e {
        AppErrorView::DbError(m) => "Database error: "@ + m,
        AppErrorView::AuthError(m) => "Authentication error: "@ + m,
        AppErrorView::ValidationError(m) => "Invalid input: "@ + m,
        AppErrorView::InternalError => "Internal server error"@,
    }
}

impl AppError {
    /// The HTTP status code that answers a request that failed with this
    /// error.
    pub fn status_code(&self) -> (r: u16)
        ensures
            r as int == status_code_spec(self@),
    {
        match self {
            AppError::DbError(_) => 500,
            AppError::AuthError(_) => 401,
            AppError::ValidationError(_) => 400,
            AppError::InternalError => 500,
        }
    }

    /// The body of the HTTP answer.
    pub fn response_body(&self) -> (r: String)
        ensures
            r@ == response_body_spec(self@),
    {
        match self {
            AppError::DbError(_) => owned("Database error"),
            AppError::AuthError(_) => owned("Authentication failed"),
            AppError::ValidationError(m) => owned(m.as_str()),
            AppError::InternalError => owned("Internal server error"),
        }
    }

    /// The error written out in full.
    pub fn message(&self) -> (r: String)
        ensures
            r@ == message_spec(self@),
    {
        match self {
            AppError::DbError(m) => owned("Database error: ").concat(m.as_str()),
            AppError::AuthError(m) => owned("Authentication error: ").concat(m.as_str()),
            AppError::ValidationError(m) => owned("Invalid input: ").concat(m.as_str()),
            AppError::InternalError => owned("Internal server error"),
        }
    }

    /// A copy of the error.
    pub fn duplicate(&self) -> (r: AppError)
        ensures
            r@ == self@,
    {
        match self {
            AppError::DbError(m) => AppError::DbError(owned(m.as_str())),
            AppError::AuthError(m) => AppError::AuthError(owned(m.as_str())),
            AppError::ValidationError(m) => AppError::ValidationError(owned(m.as_str())),
            AppError::InternalError => AppError::InternalError,
        }
    }
}

} // verus!
