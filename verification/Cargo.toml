[package]
name = "scorton_core"
version = "0.1.0"
edition = "2021"
publish = false

[dependencies]
actix-web = "=4.18.1"
anyhow = "=1.0.104"
chrono = { version = "=0.4.45", features = ["serde"] }
jsonwebtoken = "=9.3.1"
napi = { version = "=2.16.17", features = ["async"] }
napi-derive = "=2.16.13"
native-tls = "=0.2.18"
openssl = "=0.10.81"
reqwest = "=0.12.28"
serde = { version = "=1.0.229", features = ["derive"] }
serde_json = "=1.0.154"
tokio = { version = "=1.54.1", features = ["full"] }
tokio-native-tls = "=0.3.1"
url = "=2.5.8"
uuid = { version = "=1.29.0", features = ["v4"] }
