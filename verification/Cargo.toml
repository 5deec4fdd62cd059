[package]
name = "txn_feed"
version = "0.1.0"
edition = "2021"
publish = false

[dependencies]
uuid = { version = "1", features = ["v4", "serde"] }
kv = { version = "*", features = ["json-value"] }
serde = { version = "1", features = ["derive"] }
async-graphql = { version = "*", features = ["uuid"] }
async-graphql-tide = "*"
async-std = { version = "1", features = ["unstable"] }
futures = "0.3"
tide = "*"
