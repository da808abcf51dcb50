//! The errors a run can end with.

use vstd::prelude::*;
use vstd::string::StringExecFns;

verus! {

/// Why a run, or one step of it, failed. Each variant carries the message of
/// what went wrong.
#[derive(Debug)]
pub enum AppError {
    /// An HTTP request failed.
    Http(String),
    /// The table could not be written as delimited text.
    Csv(String),
    /// A file operation failed.
    Io(String),
    /// A catalog response was not the JSON that was expected.
    SerdeJson(String),
    /// A configuration value is missing or invalid.
    Config(String),
    /// Anything else.
    Other(String),
}

impl AppError {
    /// The words that introduce the message of each kind of error.
    pub open spec fn prefix(self) -> Seq<char> {
        match self {
            AppError::Http(_) => "HTTP request failed: "@,
            AppError::Csv(_) => "CSV write failed: "@,
            AppError::Io(_) => "IO error: "@,
            AppError::SerdeJson(_) => "Serde JSON error: "@,
            AppError::Config(_) => "Configuration error: "@,
            AppError::Other(_) => "Other error: "@,
        }
    }

    /// The message the error carries.
    pub open spec fn detail(self) -> Seq<char> {
        match self {
            AppError::Http(m) => m@,
            AppError::Csv(m) => m@,
            AppError::Io(m) => m@,
            AppError::SerdeJson(m) => m@,
            AppError::Config(m) => m@,
            AppError::Other(m) => m@,
        }
    }

    /// The full text of the error: the words for its kind, then its message.
    pub fn message(&self) -> (text: String)
        ensures
            text@ == self.prefix() + self.detail(),
    {
        match self {
            AppError::Http(m) => String::from_str("HTTP request failed: ").concat(m.as_str()),
            AppError::Csv(m) => String::from_str("CSV write failed: ").concat(m.as_str()),
            AppError::Io(m) => String::from_str("IO error: ").concat(m.as_str()),
            AppError::SerdeJson(m) => String::from_str("Serde JSON error: ").concat(m.as_str()),
            AppError::Config(m) => String::from_str("Configuration error: ").concat(m.as_str()),
            AppError::Other(m) => String::from_str("Other error: ").concat(m.as_str()),
        }
    }
}

} // verus!
