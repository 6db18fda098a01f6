//! The errors that an operation of the service can end in.

use vstd::prelude::*;
use vstd::string::StringExecFns;

verus! {

/// Why an operation failed.
#[derive(Debug, PartialEq, Eq)]
pub enum AppError {
    /// The store refused or failed a statement; the text is the driver's own.
    Database(String),
    /// No connection to the store could be had from the pool.
    PoolError(String),
    /// An input was rejected before anything was written.
    Validation(String),
}

/// What an operation returns.
pub type AppResult<T> = Result<T, AppError>;

/// An [`AppError`] as a plain value.
pub enum AppErrorView {
    Database(Seq<char>),
    PoolError(Seq<char>),
    Validation(Seq<char>),
}

impl View for AppError {
    type V = AppErrorView;

    open spec fn view(&self) -> AppErrorView {
        match self {
            AppError::Database(text) => AppErrorView::Database(text@),
            AppError::PoolError(text) => AppErrorView::PoolError(text@),
            AppError::Validation(text) => AppErrorView::Validation(text@),
        }
    }
}

impl AppErrorView {
    /// The text that the caller is shown: the kind of the error, then its detail.
    pub open spec fn message(self) -> Seq<char> {
        match self {
            AppErrorView::Database(text) => "Database error: "@ + text,
            AppErrorView::PoolError(text) => "Connection pool error: "@ + text,
            AppErrorView::Validation(text) => "Validation error: "@ + text,
        }
    }
}

impl AppError {
    /// The text that the caller is shown.
    pub fn message(&self) -> (text: String)
        ensures
            text@ == self@.message(),
    {
        match self {
            AppError::Database(detail) => String::from_str("Database error: ").concat(
                detail.as_str(),
            ),
            AppError::PoolError(detail) => String::from_str("Connection pool error: ").concat(
                detail.as_str(),
            ),
            AppError::Validation(detail) => String::from_str("Validation error: ").concat(
                detail.as_str(),
            ),
        }
    }
}

} // verus!
