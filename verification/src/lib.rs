//! Commit-activity summarization service core.
//!
//! The library holds the verified logic of a small summarization service:
//! extracting commit messages from activity events, building the upstream
//! request, classifying upstream replies under a bounded retry policy, and
//! rendering a summary into a document that is exported as a PDF.

pub mod config;
pub mod error;
pub mod export_pdf;
pub mod jsonval;
pub mod models;
pub mod summarize;
pub mod textops;
