[package]
name = "perseus"
version = "0.4.0"
edition = "2021"
publish = false

[dependencies]
serde = { version = "=1.0.229", features = ["derive"] }
serde_json = "=1.0.154"
thiserror = "=1.0.69"
tokio = { version = "=1.54.1", features = ["fs", "io-util"] }
urlencoding = "=2.1.3"
chrono = { version = "=0.4.45", default-features = false, features = ["std", "clock"] }
fluent-bundle = "=0.15.3"
unic-langid = "=0.9.6"
intl-memoizer = "=0.5.3"
