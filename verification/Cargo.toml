[package]
name = "alternator_driver"
version = "0.1.0"
edition = "2021"
publish = false

[dependencies]
aws-sdk-dynamodb = { version = "1", default-features = false }
aws-smithy-runtime-api = { version = "1", features = ["client"] }
aws-smithy-types = "1"
serde = { version = "1", features = ["derive"] }
serde_json = "1"
