[package]
name = "twitter_stream"
version = "0.1.0"
edition = "2021"
publish = false

[dependencies]
bytes = "=1.12.1"
memchr = "=2.8.3"
oauth1-request = "=0.3.3"
chrono = "=0.4.45"
http = "0.2"
http-body = "0.4"
futures-core = "0.3"
futures-util = "0.3"
pin-project-lite = "0.2"
tower-service = "0.3"
serde = { version = "1", features = ["derive"] }
serde_json = { version = "1", features = ["preserve_order"] }
async-compression = { version = "0.3", features = ["tokio", "gzip"] }
tokio-util = { version = "0.6", features = ["codec", "io"] }

[dev-dependencies]
serde_json = { version = "1", features = ["preserve_order"] }
