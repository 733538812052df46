//! The errors that a request can end in, and the problem report (title,
//! HTTP status, detail) that answers each one.
use vstd::prelude::*;

use crate::text::{join, join_strs, texts};

verus! {

/// Why a request was not answered with a price.
#[derive(Debug)]
pub enum AppError {
    /// Something failed that the caller cannot mend; `error` says what, and
    /// is not shown to the caller.
    Internal { error: String },
    /// Too few exchanges answered.
    InsufficientSources,
    /// The parameter `param` holds `value`, which is not one of `supported`.
    UnsupportedValue { param: &'static str, value: String, supported: &'static [&'static str] },
    /// The parameter `param` is missing.
    RequiredParameter { param: &'static str },
}

/// The problem report that answers an error.
#[derive(Debug)]
pub struct ProblemDetails {
    pub title: &'static str,
    pub status: u16,
    pub detail: String,
}

/// The title of the report for `error`.
pub open spec fn problem_title(error: AppError) -> &'static str {
    match error {
        AppError::InsufficientSources => "Price Unavailable",
        AppError::Internal { .. } => "Internal Server Error",
        AppError::UnsupportedValue { .. } => "Invalid Parameter",
        AppError::RequiredParameter { .. } => "Required Parameter",
    }
}

/// The HTTP status of the report for `error`.
pub open spec fn problem_status(error: AppError) -> u16 {
    match error {
        AppError::InsufficientSources => 503,
        AppError::Internal { .. } => 500,
        AppError::UnsupportedValue { .. } => 400,
        AppError::RequiredParameter { .. } => 400,
    }
}

/// The detail of the report for `error`.
pub open spec fn problem_detail(error: AppError) -> Seq<char> {
    match error {
        AppError::InsufficientSources => "Unable to retrieve price data at this time, please try again"@,
        AppError::Internal { .. } => "An unexpected error occurred"@,
        AppError::UnsupportedValue { param, value, supported } => "\""@ + value@
            + "\" is not a supported value for \""@ + param@ + "\", accepted values are: "@ + join(
            texts(supported@),
            ", "@,
        ),
        AppError::RequiredParameter { param } => "Missing required parameter: "@ + param@,
    }
}

impl ProblemDetails {
    /// The problem report that answers `error`. The cause of an internal
    /// error stays out of it.
    pub fn from(error: AppError) -> (r: ProblemDetails)
        ensures
            r.title == problem_title(error),
            r.status == problem_status(error),
            r.detail@ == problem_detail(error),
    {
        match error {
            AppError::InsufficientSources => ProblemDetails {
                title: "Price Unavailable",
                status: 503,
                detail: String::from_str(
                    "Unable to retrieve price data at this time, please try again",
                ),
            },
            AppError::Internal { .. } => ProblemDetails {
                title: "Internal Server Error",
                status: 500,
                detail: String::from_str("An unexpected error occurred"),
            },
            AppError::UnsupportedValue { param, value, supported } => {
                let mut detail = String::from_str("\"");
                detail.append(value.as_str());
                detail.append("\" is not a supported value for \"");
                detail.append(param);
                detail.append("\", accepted values are: ");
                let accepted = join_strs(supported, ", ");
                detail.append(accepted.as_str());
                ProblemDetails { title: "Invalid Parameter", status: 400, detail }
            },
            AppError::RequiredParameter { param } => {
                let mut detail = String::from_str("Missing required parameter: ");
                detail.append(param);
                ProblemDetails { title: "Required Parameter", status: 400, detail }
            },
        }
    }
}

/// Turns the error of a result into an internal error.
pub trait IntoInternal<T> {
    fn or_internal_error(self) -> Result<T, AppError>;
}

impl<T, E: core::fmt::Display> IntoInternal<T> for Result<T, E> {
    /// Keeps a success as it is; makes a failure an `AppError::Internal`
    /// that holds the failure's text.
    fn or_internal_error(self) -> (r: Result<T, AppError>)
        ensures
            match self {
                Ok(t) => r == Ok::<T, AppError>(t),
                Err(e) => match r {
                    Err(AppError::Internal { error }) => vstd::string::to_string_from_display_ensures::<
                        E,
                    >(&e, error),
                    _ => false,
                },
            },
    {
        match self {
            Ok(t) => Ok(t),
            Err(e) => Err(AppError::Internal { error: e.to_string() }),
        }
    }
}

} // verus!
