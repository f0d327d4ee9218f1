[package]
name = "asset_core"
version = "0.1.0"
edition = "2021"
publish = false

[dependencies]
uuid = { version = "=1.27.0", features = ["v7"] }
redis = "=1.7.1"
serde = { version = "=1.0.229", features = ["derive"] }
serde_json = "=1.0.151"
dotenvy = "=0.15.7"
reqwest = { version = "*", default-features = false, features = ["blocking", "json", "rustls-tls"] }
