[package]
name = "pylon"
version = "0.1.0"
edition = "2021"
publish = false

[dependencies]
http = "1"
uuid = { version = "1", features = ["v4"] }
url = "2"
httpdate = "1"
sonic-rs = "0.5"
bytes = "1"
anyhow = "1"
async-stream = "0.3"
axum = "0.8"
clap = { version = "4", features = ["derive"] }
flume = "0.11"
futures = "0.3"
parking_lot = "0.12"
quinn = { version = "0.11", default-features = false, features = ["runtime-tokio"] }
reqwest = { version = "0.12", default-features = false, features = ["json", "stream"] }
serde = { version = "1", features = ["derive"] }
serde_json = "1"
thiserror = "2"
tokio = { version = "1", features = ["full"] }
tokio-util = { version = "0.7", features = ["rt"] }
tracing = "0.1"
tracing-subscriber = { version = "0.3", features = ["env-filter"] }
