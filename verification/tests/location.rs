use pdf_summary_task::errors::PipelineError;
use pdf_summary_task::location::parse_s3_uri;

#[test]
fn parses_s3_location() {
    let r = parse_s3_uri("s3://bucket/key.pdf").unwrap();
    assert_eq!(r.0, "bucket");
    assert_eq!(r.1, "key.pdf");
}

#[test]
fn parses_nested_key() {
    let r = parse_s3_uri("s3://my-bucket/deep/path/to/doc.pdf").unwrap();
    assert_eq!(r.0, "my-bucket");
    assert_eq!(r.1, "deep/path/to/doc.pdf");
}

#[test]
fn parses_other_scheme() {
    let r = parse_s3_uri("store://bucket/in.pdf").unwrap();
    assert_eq!(r.0, "bucket");
    assert_eq!(r.1, "in.pdf");
}

#[test]
fn rejects_location_without_scheme_prefix() {
    let r = parse_s3_uri("bucket/in.pdf");
    assert_eq!(r, Err(PipelineError::MalformedLocation));
}

#[test]
fn rejects_empty_string() {
    assert_eq!(parse_s3_uri(""), Err(PipelineError::MalformedLocation));
}

#[test]
fn rejects_empty_scheme() {
    assert_eq!(parse_s3_uri("://bucket/key"), Err(PipelineError::MalformedLocation));
}

#[test]
fn rejects_empty_container() {
    assert_eq!(parse_s3_uri("s3:///key"), Err(PipelineError::MalformedLocation));
}

#[test]
fn rejects_missing_key() {
    assert_eq!(parse_s3_uri("s3://bucket"), Err(PipelineError::MalformedLocation));
    assert_eq!(parse_s3_uri("s3://bucket/"), Err(PipelineError::MalformedLocation));
}

#[test]
fn keeps_extra_slashes_in_key() {
    let r = parse_s3_uri("s3://bucket//key").unwrap();
    assert_eq!(r.0, "bucket");
    assert_eq!(r.1, "/key");
}
