use vstd::prelude::*;
use vstd::string::StringExecFns;

verus! {

/// Every way a pipeline stage can fail. A failure aborts the run: no stage
/// retries, and nothing is published after an error.
#[derive(Debug, PartialEq, Eq)]
pub enum PipelineError {
    /// A required configuration value is absent.
    ConfigurationError,
    /// A storage location did not parse as `scheme://container/path`.
    MalformedLocation,
    /// The storage transport failed (network, auth, or service error).
    StorageUnavailable,
    /// The requested object does not exist (fetch only).
    ObjectNotFound,
    /// The document bytes could not be parsed as a PDF.
    UnparseableDocument,
    /// The PDF parsed, but no usable text came out of it.
    EmptyExtraction,
    /// The completion API answered with a non-success status; the payload
    /// it sent back is kept for diagnostics.
    ApiRequestFailed(String),
    /// The completion API answered with an unexpected response shape.
    MalformedApiResponse,
    /// The HTTP transport to the completion API failed.
    TransportError,
    /// The output schema document is missing its field list, or the field
    /// list has the wrong type.
    InvalidSchema,
}

impl PipelineError {
    /// What `message` returns for each variant.
    pub open spec fn message_spec(self) -> Seq<char> {
        match self {
            PipelineError::ConfigurationError => "missing required configuration"@,
            PipelineError::MalformedLocation => "malformed storage location"@,
            PipelineError::StorageUnavailable => "storage unavailable"@,
            PipelineError::ObjectNotFound => "object not found"@,
            PipelineError::UnparseableDocument => "document could not be parsed as a PDF"@,
            PipelineError::EmptyExtraction => "no text could be extracted from the PDF"@,
            PipelineError::ApiRequestFailed(detail) => "summarization API request failed: "@
                + detail@,
            PipelineError::MalformedApiResponse => "invalid response format from summarization API"@,
            PipelineError::TransportError => "could not reach the summarization API"@,
            PipelineError::InvalidSchema => "output schema is missing a usable field list"@,
        }
    }

    /// A human-readable description of the failure.
    pub fn message(&self) -> (r: String)
        ensures
            r@ == self.message_spec(),
    {
        match self {
            PipelineError::ConfigurationError => "missing required configuration".to_owned(),
            PipelineError::MalformedLocation => "malformed storage location".to_owned(),
            PipelineError::StorageUnavailable => "storage unavailable".to_owned(),
            PipelineError::ObjectNotFound => "object not found".to_owned(),
            PipelineError::UnparseableDocument => "document could not be parsed as a PDF".to_owned(),
            PipelineError::EmptyExtraction => "no text could be extracted from the PDF".to_owned(),
            PipelineError::ApiRequestFailed(detail) => {
                let mut m = "summarization API request failed: ".to_owned();
                m.append(detail.as_str());
                m
            },
            PipelineError::MalformedApiResponse => "invalid response format from summarization API"
                .to_owned(),
            PipelineError::TransportError => "could not reach the summarization API".to_owned(),
            PipelineError::InvalidSchema => "output schema is missing a usable field list"
                .to_owned(),
        }
    }
}

} // verus!
