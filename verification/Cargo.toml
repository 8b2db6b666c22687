[package]
name = "nitram"
version = "0.1.0"
edition = "2021"
publish = false

[dependencies]
actix-web = { version = "4", default-features = false }
actix-ws = "0.3"
base64 = "0.22"
bytestring = "1"
chrono = { version = "0.4", features = ["serde"] }
derive_more = { version = "1", features = ["from"] }
rpc-router = "0.1"
serde = { version = "1", features = ["derive"] }
serde_json = "1"
tokio = { version = "1", features = ["sync", "rt", "time"] }
tracing = "0.1"
ts-rs = { version = "10", features = ["serde-json-impl"] }
uuid = { version = "1", features = ["v4"] }
