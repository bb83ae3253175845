use pdf_summary_task::assemble::{assemble, assemble_document, parse_task_definition};
use pdf_summary_task::errors::PipelineError;
use pdf_summary_task::json::JsonTree;

fn descriptor(name: &str) -> JsonTree {
    JsonTree::Object(vec![("field".to_string(), JsonTree::Text(name.to_string()))])
}

fn schema_of(fields: Vec<JsonTree>) -> JsonTree {
    JsonTree::Object(vec![("fields".to_string(), JsonTree::Array(fields))])
}

#[test]
fn keeps_summary_and_drops_other_fields() {
    let schema = schema_of(vec![descriptor("summary"), descriptor("author")]);
    let out = assemble(&schema, "X").unwrap();
    assert_eq!(out, "{\"summary\":\"X\"}");
}

#[test]
fn assemble_is_idempotent() {
    let schema = schema_of(vec![descriptor("summary"), descriptor("title")]);
    let first = assemble(&schema, "same summary").unwrap();
    let second = assemble(&schema, "same summary").unwrap();
    assert_eq!(first.as_bytes(), second.as_bytes());
}

#[test]
fn schema_without_summary_field_gives_empty_object() {
    let schema = schema_of(vec![descriptor("author"), descriptor("title")]);
    assert_eq!(assemble(&schema, "X").unwrap(), "{}");
}

#[test]
fn empty_field_list_gives_empty_object() {
    let schema = schema_of(vec![]);
    assert_eq!(assemble(&schema, "X").unwrap(), "{}");
}

#[test]
fn descriptors_without_a_field_name_are_skipped() {
    let schema = schema_of(vec![
        JsonTree::Object(vec![("kind".to_string(), JsonTree::Text("summary".to_string()))]),
        JsonTree::Text("summary".to_string()),
        descriptor("summary"),
    ]);
    assert_eq!(assemble(&schema, "X").unwrap(), "{\"summary\":\"X\"}");
}

#[test]
fn schema_without_fields_array_is_invalid() {
    let schema = JsonTree::Object(vec![(
        "fields".to_string(),
        JsonTree::Text("summary".to_string()),
    )]);
    assert_eq!(assemble(&schema, "X"), Err(PipelineError::InvalidSchema));
    let bare = JsonTree::Object(vec![]);
    assert_eq!(assemble(&bare, "X"), Err(PipelineError::InvalidSchema));
    assert_eq!(assemble(&JsonTree::Null, "X"), Err(PipelineError::InvalidSchema));
}

#[test]
fn summary_text_is_escaped_in_the_artifact() {
    let schema = schema_of(vec![descriptor("summary")]);
    let summary = "line one\nquote \" backslash \\ tab \t end";
    let out = assemble(&schema, summary).unwrap();
    let v: serde_json::Value = serde_json::from_str(&out).unwrap();
    assert_eq!(v["summary"].as_str().unwrap(), summary);
}

#[test]
fn control_characters_are_escaped_in_the_artifact() {
    let schema = schema_of(vec![descriptor("summary")]);
    let summary = "a\u{1}b\u{1f}c";
    let out = assemble(&schema, summary).unwrap();
    assert_eq!(out, "{\"summary\":\"a\\u0001b\\u001fc\"}");
    let v: serde_json::Value = serde_json::from_str(&out).unwrap();
    assert_eq!(v["summary"].as_str().unwrap(), summary);
}

#[test]
fn parses_task_definition_and_assembles() {
    let text = "{\"outputSchema\":{\"fields\":[{\"field\":\"summary\"},{\"field\":\"author\"}]}}";
    let doc = parse_task_definition(text).unwrap();
    let out = assemble_document(&doc, "X").unwrap();
    assert_eq!(out, "{\"summary\":\"X\"}");
}

#[test]
fn task_definition_must_be_valid_json() {
    assert_eq!(
        parse_task_definition("{not json").unwrap_err(),
        PipelineError::InvalidSchema
    );
}

#[test]
fn document_without_output_schema_is_invalid() {
    let doc = parse_task_definition("{\"name\":\"job\"}").unwrap();
    assert_eq!(assemble_document(&doc, "X"), Err(PipelineError::InvalidSchema));
}
