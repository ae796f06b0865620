[package]
name = "films"
version = "0.1.0"
edition = "2021"
publish = false

[dependencies]
aws-config = "0.55"
aws-sdk-dynamodb = "0.28"
aws-smithy-client = "0.55"
futures = "0.3"
log = "0.4"
pretty_env_logger = "0.5"
serde = { version = "1", features = ["derive"] }
serde_dynamo = "4"
serde_json = "1"
thiserror = "1"
tokio = { version = "1", features = ["full"] }
tokio-stream = "0.1"
tracing = "0.1"
warp = "0.3"
