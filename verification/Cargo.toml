[package]
name = "iam_assumer"
version = "0.1.0"
edition = "2021"
publish = false

[dependencies]
aws-config = "=1.12.0"
aws-sdk-sts = "=1.119.0"
aws-smithy-types = "=1.9.0"
aws-smithy-types-convert = { version = "=0.61.1", features = ["convert-chrono"] }
axum = "=0.7.9"
chrono = { version = "=0.4.45", features = ["serde"] }
clap = { version = "=4.6.7", features = ["derive", "env"] }
clap_complete = "=4.6.11"
hyper = "=1.12.0"
hyper-util = { version = "=0.1.21", features = ["tokio", "server-auto", "http1", "http2"] }
nix = { version = "=0.29.0", features = ["signal"] }
rand = "=0.8.8"
serde = { version = "=1.0.229", features = ["derive"] }
tokio = { version = "=1.54.1", features = ["full"] }
tower = "=0.5.3"
tracing = "=0.1.44"
tracing-subscriber = { version = "=0.3.23", features = ["env-filter"] }
url = "=2.5.8"

[dev-dependencies]
serde_json = "=1.0.154"
