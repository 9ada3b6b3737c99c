[package]
name = "duba"
version = "0.1.0"
edition = "2021"
publish = false

[dependencies]
rand = "0.8"
serde_json = "1"
serenity = { version = "0.11", default-features = false, features = ["cache", "client", "framework", "gateway", "model", "rustls_backend", "standard_framework", "voice"] }
songbird = "0.3"
tokio = { version = "1", features = ["macros", "rt-multi-thread", "signal"] }
dotenvy = "0.15"
tracing = "0.1"
tracing-subscriber = "0.3"
