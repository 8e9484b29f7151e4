[package]
name = "wechat_sdk"
version = "0.1.2"
edition = "2021"
publish = false

[dependencies]
aes = "=0.9.4"
anyhow = "=1.0.104"
base64 = "=0.22.1"
dirs = "=7.0.0"
ecb = "=0.2.1"
hex = "=0.4.3"
log = "=0.4.35"
reqwest = { version = "=0.12.28", default-features = false, features = ["json", "rustls-tls"] }
serde = { version = "=1.0.229", features = ["derive"] }
serde_json = "=1.0.154"
serde_repr = "=0.1.21"
tokio = { version = "=1.54.1", features = ["fs", "time", "sync", "rt", "macros"] }
uuid = { version = "=1.29.1", features = ["v4"] }

[dev-dependencies]
derive_more = { version = "2", features = ["from_str", "display"] }
