[package]
name = "pumpkin_core"
version = "0.1.0"
edition = "2021"
publish = false

[dependencies]
serde = { version = "=1.0.229", features = ["derive"] }
toml = "=0.8.23"
thiserror = "=2.0.21"
reqwest = { version = "=0.12.28", default-features = false, features = ["blocking", "rustls-tls"] }
