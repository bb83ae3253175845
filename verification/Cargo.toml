[package]
name = "pdf_summary_task"
version = "0.1.0"
edition = "2021"
publish = false

[dependencies]
serde_json = "=1.0.151"
pdf-extract = "=0.12.1"
reqwest = { version = "=0.13.5", features = ["json"] }
tokio = { version = "=1.53.2", default-features = false, features = ["macros", "rt-multi-thread"] }
aws-config = "=1.12.0"
aws-sdk-s3 = "=1.152.0"
tracing-subscriber = "=0.3.23"
