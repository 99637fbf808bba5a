//! The unified application error type and its response mapping.

use vstd::prelude::*;
use vstd::string::*;

verus! {

/// Unified application error, one variant per failure stage of the service.
pub enum AppError {
    /// A required configuration setting was missing.
    Config(String),
    /// The upstream summarization call failed after all attempts, or its
    /// reply could not be decoded.
    Api(String),
    /// A resource (the document template) could not be read.
    Io(String),
    /// The document compiler rejected the rendered document.
    Tectonic(String),
    /// The object-storage upload failed.
    S3(String),
    /// Fallback for errors with no classification.
    Unknown,
}

impl AppError {
    /// The HTTP status code a handler answers with for this error:
    /// upstream failures map to 502, everything else to 500.
    pub fn status_code(&self) -> (code: u16)
        ensures
            self matches AppError::Api(_) ==> code == 502,
            !(self matches AppError::Api(_)) ==> code == 500,
    {
        match self {
            AppError::Api(_) => 502,
            _ => 500,
        }
    }

    /// The human-readable message for this error: a fixed prefix naming the
    /// failure stage, followed by the recorded detail.
    pub fn message(&self) -> (msg: String)
        ensures
            self matches AppError::Config(s) ==> msg@ == "Configuration error: "@ + s@,
            self matches AppError::Api(s) ==> msg@ == "OpenAI API error: "@ + s@,
            self matches AppError::Io(s) ==> msg@ == "I/O error: "@ + s@,
            self matches AppError::Tectonic(s) ==> msg@ == "Tectonic compilation error: "@ + s@,
            self matches AppError::S3(s) ==> msg@ == "S3 upload error: "@ + s@,
            self matches AppError::Unknown ==> msg@ == "Unexpected error"@,
    {
        match self {
            AppError::Config(s) => String::from_str("Configuration error: ").concat(s.as_str()),
            AppError::Api(s) => String::from_str("OpenAI API error: ").concat(s.as_str()),
            AppError::Io(s) => String::from_str("I/O error: ").concat(s.as_str()),
            AppError::Tectonic(s) => String::from_str("Tectonic compilation error: ").concat(
                s.as_str(),
            ),
            AppError::S3(s) => String::from_str("S3 upload error: ").concat(s.as_str()),
            AppError::Unknown => String::from_str("Unexpected error"),
        }
    }
}

} // verus!
