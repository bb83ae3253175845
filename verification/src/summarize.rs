use vstd::prelude::*;
use vstd::string::StrSliceExecFns;
use vstd::string::StringExecFns;

use crate::errors::PipelineError;
use crate::json::{dec_str, escape_json, escape_str, lookup, lookup_spec, parse_json, parsed_json,
    u64_to_dec, JsonTree};
use crate::text::{trim_spec, trim_str};

verus! {

/// The hard cutoff on how many characters of the document are submitted
/// for summarization.
pub const SUMMARY_MAX_CHARS: usize = 8000;

/// The configuration of the completion request. The fields are fixed for a
/// run; their defaults reproduce the request the pipeline has always sent.
pub struct SummarizerConfig {
    /// The model identifier placed in the request.
    pub model: String,
    /// The output-token bound placed in the request.
    pub max_tokens: u64,
    /// The sampling temperature, as the JSON number literal to place in
    /// the request.
    pub temperature: String,
}

impl Default for SummarizerConfig {
    /// The fixed defaults: `gpt-3.5-turbo`, 500 output tokens,
    /// temperature 0.3.
    fn default() -> (r: Self)
        ensures
            r.model@ == "gpt-3.5-turbo"@,
            r.max_tokens == 500,
            r.temperature@ == "0.3"@,
    {
        SummarizerConfig {
            model: "gpt-3.5-turbo".to_owned(),
            max_tokens: 500,
            temperature: "0.3".to_owned(),
        }
    }
}

/// What the truncation policy keeps of `t`: the first 8000 characters,
/// cut without regard to word or sentence boundaries.
pub open spec fn truncated_spec(t: Seq<char>) -> Seq<char> {
    if t.len() > 8000 {
        t.take(8000)
    } else {
        t
    }
}

/// Cuts `text` to the first `SUMMARY_MAX_CHARS` characters; shorter text
/// passes through whole.
pub fn truncate_text(text: &str) -> (r: &str)
    ensures
        r@ == truncated_spec(text@),
{
    let n = text.unicode_len();
    if n > SUMMARY_MAX_CHARS {
        text.substring_char(0, SUMMARY_MAX_CHARS)
    } else {
        text
    }
}

/// The user turn of the completion request: a fixed instruction prefix
/// followed by the (possibly truncated) document text.
pub open spec fn user_content_spec(t: Seq<char>) -> Seq<char> {
    "Please summarize the following text:\n\n"@ + truncated_spec(t)
}

/// Builds the user turn: the fixed prefix, then the truncated text.
pub fn build_user_content(text: &str) -> (r: String)
    ensures
        r@ == user_content_spec(text@),
{
    let mut out: String = "Please summarize the following text:\n\n".to_owned();
    out.append(truncate_text(text));
    out
}

/// The user turn carries the submitted text unmodified: past the fixed
/// prefix it is exactly the whole text when the text has at most 8000
/// characters, and exactly the first 8000 characters otherwise.
pub proof fn lemma_user_content_carries_text(t: Seq<char>)
    ensures
        t.len() <= 8000 ==> user_content_spec(t).skip(
            "Please summarize the following text:\n\n"@.len() as int,
        ) == t,
        t.len() > 8000 ==> user_content_spec(t).skip(
            "Please summarize the following text:\n\n"@.len() as int,
        ) == t.take(8000),
{
    let p = "Please summarize the following text:\n\n"@;
    assert((p + truncated_spec(t)).skip(p.len() as int) =~= truncated_spec(t));
}

/// The fixed system instruction of every completion request.
pub open spec fn system_prompt_spec() -> Seq<char> {
    "You are a helpful assistant that summarizes documents. Create a concise summary of the main points and key information from the provided text."@
}

/// The body of the completion request: a chat-style JSON document with the
/// fixed system instruction, the user turn carrying the truncated text,
/// and the configured model, token bound and temperature.
pub open spec fn request_body_spec(
    model: Seq<char>,
    max_tokens: u64,
    temperature: Seq<char>,
    text: Seq<char>,
) -> Seq<char> {
    "{\"model\":\""@ + escape_str(model) + "\",\"messages\":[{\"role\":\"system\",\"content\":\""@
        + escape_str(system_prompt_spec()) + "\"},{\"role\":\"user\",\"content\":\""@
        + escape_str(user_content_spec(text)) + "\"}],\"max_tokens\":"@ + dec_str(
        max_tokens as nat,
    ) + ",\"temperature\":"@ + temperature + "}"@
}

/// Builds the completion request body that is sent for `text`.
pub fn build_request_body(config: &SummarizerConfig, text: &str) -> (r: String)
    ensures
        r@ == request_body_spec(config.model@, config.max_tokens, config.temperature@, text@),
{
    let mut out: String = "{\"model\":\"".to_owned();
    let escaped_model = escape_json(config.model.as_str());
    out.append(escaped_model.as_str());
    out.append("\",\"messages\":[{\"role\":\"system\",\"content\":\"");
    let escaped_system = escape_json(
        "You are a helpful assistant that summarizes documents. Create a concise summary of the main points and key information from the provided text.",
    );
    out.append(escaped_system.as_str());
    out.append("\"},{\"role\":\"user\",\"content\":\"");
    let user_content = build_user_content(text);
    let escaped_user = escape_json(user_content.as_str());
    out.append(escaped_user.as_str());
    out.append("\"}],\"max_tokens\":");
    let rendered_max = u64_to_dec(config.max_tokens);
    out.append(rendered_max.as_str());
    out.append(",\"temperature\":");
    out.append(config.temperature.as_str());
    out.append("}");
    proof {
        assert(out@ =~= request_body_spec(
            config.model@,
            config.max_tokens,
            config.temperature@,
            text@,
        ));
    }
    out
}

/// The summary that a completion response document carries: the trimmed
/// content of the first choice's message, or `None` where that path is
/// absent — the malformed-response case.
pub open spec fn summary_of_response(v: JsonTree) -> Option<Seq<char>> {
    match v {
        JsonTree::Object(members) => match lookup_spec(members@, "choices"@) {
            Some(JsonTree::Array(choices)) => if choices@.len() > 0 {
                match choices@[0] {
                    JsonTree::Object(first_choice) => match lookup_spec(
                        first_choice@,
                        "message"@,
                    ) {
                        Some(JsonTree::Object(message)) => match lookup_spec(
                            message@,
                            "content"@,
                        ) {
                            Some(JsonTree::Text(content)) => Some(trim_spec(content@)),
                            _ => None,
                        },
                        _ => None,
                    },
                    _ => None,
                }
            } else {
                None
            },
            _ => None,
        },
        _ => None,
    }
}

/// Reads the generated summary out of a parsed completion response:
/// the content of `choices[0].message.content`, trimmed. A response
/// without that path fails with `MalformedApiResponse`.
pub fn extract_summary(response: &JsonTree) -> (r: Result<String, PipelineError>)
    ensures
        match summary_of_response(*response) {
            Some(s) => r matches Ok(t) && t@ == s,
            None => r matches Err(e) && e == PipelineError::MalformedApiResponse,
        },
{
    if let JsonTree::Object(members) = response {
        if let Some(JsonTree::Array(choices)) = lookup(members, "choices") {
            if choices.len() > 0 {
                if let JsonTree::Object(first_choice) = &choices[0] {
                    if let Some(JsonTree::Object(message)) = lookup(first_choice, "message") {
                        if let Some(JsonTree::Text(content)) = lookup(message, "content") {
                            return Ok(trim_str(content.as_str()).to_owned());
                        }
                    }
                }
            }
        }
    }
    Err(PipelineError::MalformedApiResponse)
}

/// Interprets what came back from the completion endpoint. A non-2xx
/// status fails with `ApiRequestFailed` carrying the payload; a 2xx body
/// that is not valid JSON, or whose document carries no summary, fails
/// with `MalformedApiResponse`; otherwise the trimmed summary is returned.
pub fn interpret_api_response(status: u16, body: &str) -> (r: Result<String, PipelineError>)
    ensures
        !(200 <= status < 300) ==> (r matches Err(e) && (e matches
            PipelineError::ApiRequestFailed(m) && m@ == body@)),
        (200 <= status < 300) ==> match parsed_json(body@) {
            None => r matches Err(e) && e == PipelineError::MalformedApiResponse,
            Some(v) => match summary_of_response(v) {
                Some(s) => r matches Ok(t) && t@ == s,
                None => r matches Err(e) && e == PipelineError::MalformedApiResponse,
            },
        },
{
    if status < 200 || status >= 300 {
        return Err(PipelineError::ApiRequestFailed(body.to_owned()));
    }
    match parse_json(body) {
        Err(_) => Err(PipelineError::MalformedApiResponse),
        Ok(response) => extract_summary(&response),
    }
}

} // verus!
