[package]
name = "messagify"
version = "0.1.0"
edition = "2021"
publish = false

[dependencies]
flate2 = "1"
futures = "0.3"
reqwest = { version = "0.12", default-features = false, features = ["rustls-tls"] }
serde = { version = "1", features = ["derive"] }
serde_json = "1"
tokio = { version = "1", features = ["fs", "macros", "rt", "sync", "time"] }
tokio-tungstenite = { version = "*", features = ["rustls-tls-webpki-roots"] }
tracing = "0.1"
