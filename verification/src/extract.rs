use vstd::prelude::*;

use crate::errors::PipelineError;
use crate::text::{is_blank, is_blank_str, lemma_trim_blank, trim_spec};

verus! {

/// Accepts extracted text exactly when it has substance: text that is
/// empty, or whitespace throughout, is a terminal `EmptyExtraction`
/// failure; anything else is returned unchanged.
pub fn validate_extraction(text: String) -> (r: Result<String, PipelineError>)
    ensures
        match r {
            Ok(t) => t@ == text@ && !is_blank(text@),
            Err(e) => is_blank(text@) && e == PipelineError::EmptyExtraction,
        },
{
    if is_blank_str(text.as_str()) {
        Err(PipelineError::EmptyExtraction)
    } else {
        Ok(text)
    }
}

/// Decides the extraction stage from the outcome of the external PDF
/// parser, which the caller runs on the fetched bytes and hands over as a
/// plain value: `None` where the parser failed or aborted. A failed parse
/// is `UnparseableDocument`; text that is blank throughout is
/// `EmptyExtraction`; any other text comes back whole, and trimming it
/// leaves it non-empty.
pub fn interpret_extraction(outcome: Option<String>) -> (r: Result<String, PipelineError>)
    ensures
        match outcome {
            None => r matches Err(e) && e == PipelineError::UnparseableDocument,
            Some(t) => if is_blank(t@) {
                r matches Err(e) && e == PipelineError::EmptyExtraction
            } else {
                r matches Ok(s) && s@ == t@ && trim_spec(s@).len() > 0
            },
        },
{
    match outcome {
        None => Err(PipelineError::UnparseableDocument),
        Some(text) => {
            proof {
                lemma_trim_blank(text@);
            }
            validate_extraction(text)
        },
    }
}

} // verus!
