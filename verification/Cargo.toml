[package]
name = "idf_studio"
version = "0.1.0"
edition = "2021"
publish = false

[dependencies]
async-nats = "=0.50.0"
aws-config = { version = "=1.8.18", features = ["behavior-version-latest"] }
aws-sdk-s3 = "=1.152.0"
dirs = "=5.0.1"
reqwest = { version = "=0.11.27", default-features = false, features = ["json"] }
serde = { version = "=1.0.229", features = ["derive"] }
serde_json = "=1.0.154"
tokio = { version = "=1.54.1", features = ["fs"] }
