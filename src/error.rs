use vstd::prelude::*;
use vstd::string::StringExecFns;

verus! {

/// The ways an operation of this library, or of a fetch that it drives, can fail.
#[derive(Debug, Clone, PartialEq, Eq)]
pub enum AppError {
    /// A transport failure or an HTTP status that has no kind of its own.
    ApiError(String),
    /// The data on hand does not answer the question asked.
    DataError(String),
    /// The service answered 429 Too Many Requests, and no retry is left.
    RateLimited,
    /// The service refused the credentials (401 or 403).
    AuthError(String),
    /// The service does not know the resource (404).
    NotFound(String),
    /// The configuration is invalid (an unknown region code, a window out of range).
    ConfigError(String),
}

/// The text that `AppError::to_string` yields for an error.
pub open spec fn error_text(e: AppError) -> Seq<char> {
    match e {
        AppError::ApiError(m) => "API Error: "@ + m@,
        AppError::DataError(m) => "Data Error: "@ + m@,
        AppError::RateLimited => "Rate limited"@,
        AppError::AuthError(m) => "Auth Error: "@ + m@,
        AppError::NotFound(m) => "Not Found: "@ + m@,
        AppError::ConfigError(m) => "Config Error: "@ + m@,
    }
}

impl AppError {
    /// A one-line description of the error for display.
    pub fn to_string(&self) -> (r: String)
        ensures
            r@ == error_text(*self),
    {
        match self {
            AppError::ApiError(m) => String::from_str("API Error: ").concat(m.as_str()),
            AppError::DataError(m) => String::from_str("Data Error: ").concat(m.as_str()),
            AppError::RateLimited => String::from_str("Rate limited"),
            AppError::AuthError(m) => String::from_str("Auth Error: ").concat(m.as_str()),
            AppError::NotFound(m) => String::from_str("Not Found: ").concat(m.as_str()),
            AppError::ConfigError(m) => String::from_str("Config Error: ").concat(m.as_str()),
        }
    }
}

} // verus!
