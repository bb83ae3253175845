use vstd::prelude::*;
use vstd::string::StringExecFns;

use crate::errors::PipelineError;
use crate::json::{escape_json, escape_str, lookup, lookup_spec, parse_json, parsed_json, JsonTree};

verus! {

/// Whether a schema field descriptor declares the one field purpose the
/// assembler understands: an object whose `field` member is the string
/// `summary`.
pub open spec fn is_summary_descriptor(d: JsonTree) -> bool {
    match d {
        JsonTree::Object(members) => match lookup_spec(members@, "field"@) {
            Some(JsonTree::Text(name)) => name@ == "summary"@,
            _ => false,
        },
        _ => false,
    }
}

/// Whether any descriptor of the schema's field list asks for the summary.
pub open spec fn has_summary_field(fields: Seq<JsonTree>) -> bool {
    exists|i: int| 0 <= i < fields.len() && is_summary_descriptor(#[trigger] fields[i])
}

/// The artifact text: a JSON object holding the summary under the key
/// `summary` when the schema asks for it, and nothing else — every other
/// declared field is deliberately left out.
pub open spec fn artifact_spec(wants_summary: bool, summary: Seq<char>) -> Seq<char> {
    if wants_summary {
        "{\"summary\":\""@ + escape_str(summary) + "\"}"@
    } else {
        "{}"@
    }
}

/// What `assemble` produces for a schema document and a summary: the
/// artifact, where the schema is an object whose `fields` member is an
/// array; `None` — the `InvalidSchema` case — otherwise.
pub open spec fn assemble_result(schema: JsonTree, summary: Seq<char>) -> Option<Seq<char>> {
    match schema {
        JsonTree::Object(members) => match lookup_spec(members@, "fields"@) {
            Some(JsonTree::Array(fields)) => Some(
                artifact_spec(has_summary_field(fields@), summary),
            ),
            _ => None,
        },
        _ => None,
    }
}

/// The artifact is a function of the schema and the summary alone:
/// assembling the same schema and summary twice gives character-identical
/// artifacts.
pub proof fn lemma_assemble_idempotent(
    schema: JsonTree,
    summary: Seq<char>,
    first: Seq<char>,
    second: Seq<char>,
)
    requires
        assemble_result(schema, summary) == Some(first),
        assemble_result(schema, summary) == Some(second),
    ensures
        first == second,
{
}

/// Runtime test for `is_summary_descriptor`.
fn descriptor_wants_summary(d: &JsonTree) -> (r: bool)
    ensures
        r == is_summary_descriptor(*d),
{
    if let JsonTree::Object(members) = d {
        if let Some(JsonTree::Text(name)) = lookup(members, "field") {
            let needle: String = "summary".to_owned();
            return *name == needle;
        }
    }
    false
}

/// Maps the summary into the caller's output schema. The schema must be
/// an object whose `fields` member is an array of field descriptors;
/// anything else fails with `InvalidSchema`. The artifact binds the key
/// `summary` to the summary string exactly when some descriptor declares
/// the field name `summary`; all other descriptors are silently skipped.
pub fn assemble(schema: &JsonTree, summary: &str) -> (r: Result<String, PipelineError>)
    ensures
        match assemble_result(*schema, summary@) {
            Some(a) => r matches Ok(out) && out@ == a,
            None => r matches Err(e) && e == PipelineError::InvalidSchema,
        },
{
    if let JsonTree::Object(members) = schema {
        if let Some(JsonTree::Array(fields)) = lookup(members, "fields") {
            let n = fields.len();
            let mut wants_summary = false;
            let mut i: usize = 0;
            while i < n
                invariant
                    i <= n,
                    n == fields@.len(),
                    wants_summary ==> has_summary_field(fields@),
                    !wants_summary ==> forall|k: int|
                        0 <= k < i ==> !is_summary_descriptor(#[trigger] fields@[k]),
                decreases n - i,
            {
                if descriptor_wants_summary(&fields[i]) {
                    wants_summary = true;
                }
                i += 1;
            }
            assert(wants_summary == has_summary_field(fields@));
            if wants_summary {
                let mut out: String = "{\"summary\":\"".to_owned();
                let escaped = escape_json(summary);
                out.append(escaped.as_str());
                out.append("\"}");
                proof {
                    assert(out@ =~= artifact_spec(true, summary@));
                }
                return Ok(out);
            } else {
                return Ok("{}".to_owned());
            }
        }
    }
    Err(PipelineError::InvalidSchema)
}

/// What `assemble_document` produces for a whole task-definition document:
/// the artifact of its `outputSchema` member; a document without an
/// `outputSchema` object member is the `InvalidSchema` case.
pub open spec fn assemble_document_result(doc: JsonTree, summary: Seq<char>) -> Option<Seq<char>> {
    match doc {
        JsonTree::Object(members) => match lookup_spec(members@, "outputSchema"@) {
            Some(schema) => assemble_result(schema, summary),
            None => None,
        },
        _ => None,
    }
}

/// Looks up `outputSchema` in the task-definition document and assembles
/// the artifact from it; see `assemble`.
pub fn assemble_document(doc: &JsonTree, summary: &str) -> (r: Result<String, PipelineError>)
    ensures
        match assemble_document_result(*doc, summary@) {
            Some(a) => r matches Ok(out) && out@ == a,
            None => r matches Err(e) && e == PipelineError::InvalidSchema,
        },
{
    if let JsonTree::Object(members) = doc {
        if let Some(schema) = lookup(members, "outputSchema") {
            return assemble(schema, summary);
        }
    }
    Err(PipelineError::InvalidSchema)
}

/// Parses the task-definition text into its document. Text that is not
/// valid JSON fails with `InvalidSchema`.
pub fn parse_task_definition(text: &str) -> (r: Result<JsonTree, PipelineError>)
    ensures
        match parsed_json(text@) {
            Some(v) => r matches Ok(t) && t == v,
            None => r matches Err(e) && e == PipelineError::InvalidSchema,
        },
{
    match parse_json(text) {
        Ok(t) => Ok(t),
        Err(_) => Err(PipelineError::InvalidSchema),
    }
}

} // verus!
