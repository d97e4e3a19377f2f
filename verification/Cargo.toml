[package]
name = "alloy_pubsub"
version = "0.1.0"
edition = "2021"
publish = false

[dependencies]
alloy-json-rpc = "0.1"
alloy-primitives = "0.7"
bimap = "0.6"
serde = { version = "1", features = ["derive"] }
serde_json = { version = "1", features = ["raw_value"] }
tokio = { version = "1", features = ["sync", "rt"] }
