[package]
name = "sidex_extensions"
version = "0.1.0"
edition = "2021"
publish = false

[dependencies]
anyhow = "1"
log = "0.4"
reqwest = { version = "0.12", default-features = false, features = ["json", "rustls-tls"] }
serde = { version = "1", features = ["derive"] }
tempfile = "3"
tokio = { version = "1", features = ["sync", "rt-multi-thread"] }
tracing = "0.1"
