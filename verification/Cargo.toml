[package]
name = "glimesh"
version = "0.8.0"
edition = "2021"
publish = false

[dependencies]
anyhow = "1"
async-trait = "0.1"
async-tungstenite = { version = "*", features = ["tokio-runtime"] }
backoff = "0.4"
bimap = "0.6"
chrono = { version = "0.4", features = ["serde"] }
futures = "0.3"
graphql_client = { version = "*", default-features = false }
parking_lot = "0.12"
reqwest = { version = "0.12", default-features = false, features = ["json", "rustls-tls"] }
serde = { version = "1", features = ["derive"] }
serde_json = "1"
serde_tuple = "*"
serde_urlencoded = "0.7"
snafu = "*"
thiserror = "*"
tokio = { version = "1", features = ["sync", "time", "rt", "macros"] }
tokio-stream = { version = "0.1", features = ["sync"] }
tokio-util = "0.7"
tracing = "0.1"
uuid = { version = "1", features = ["v4", "serde"] }
