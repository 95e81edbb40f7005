[package]
name = "ai_scribe"
version = "0.1.0"
edition = "2021"
publish = false

[dependencies]
tokio = { version = "=1.54.1", default-features = false, features = ["sync", "rt"] }
simple-fs = { version = "=0.12.3", features = ["with-json", "with-toml"] }
serde = { version = "=1.0.229", features = ["derive"] }
serde_json = "=1.0.154"
text-splitter = "=0.33.0"
pdf-extract = "=0.12.1"
