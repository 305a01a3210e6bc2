[package]
name = "email_ingest"
version = "0.1.0"
edition = "2021"
publish = false

[dependencies]
email-parser = "*"
aws-config = "*"
aws_lambda_events = "*"
aws-sdk-s3 = "*"
lambda_runtime = "*"
tokio = { version = "*", features = ["macros", "rt-multi-thread"] }
tracing = "*"
tracing-subscriber = "*"
