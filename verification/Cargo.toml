[package]
name = "streaming_upload"
version = "0.1.0"
edition = "2021"
publish = false

[dependencies]
aws-config = "=1.12.0"
aws-sdk-s3 = "=1.152.0"
aws-types = "~1.6"
futures-util = "=0.3.34"
reqwest = { version = "=0.13.5", features = ["stream"] }
tokio = { version = "=1.54.1", features = ["macros", "rt-multi-thread"] }
tracing = "=0.1.44"
