//! Single-document summarization pipeline core.
//!
//! The pipeline fetches a PDF from object storage, extracts its text,
//! obtains a natural-language summary from a remote completion API, shapes
//! the summary into a caller-defined output schema, and publishes the
//! result. This crate holds the decision logic of every stage — location
//! parsing, extraction validation, the truncation policy, request assembly,
//! response interpretation, and schema-driven output assembly — with
//! verified contracts. Network and file transport live with the caller.

pub mod errors;
pub mod text;
pub mod location;
pub mod json;
pub mod extract;
pub mod summarize;
pub mod assemble;
