[package]
name = "verify_bot"
version = "0.1.0"
edition = "2021"
publish = false

[dependencies]
anyhow = "=1.0.104"
cached = { version = "=4.0.3", default-features = false }
dotenv = "=0.15.0"
futures = "=0.3.34"
log = "=0.4.34"
log4rs = "=1.4.0"
once_cell = "=1.21.4"
reqwest = { version = "=0.11.27", default-features = false, features = ["json", "rustls-tls"] }
serde = { version = "=1.0.229", features = ["derive"] }
serde_yaml = "=0.9.34"
serenity = { version = "=0.12.5", default-features = false, features = ["builder", "cache", "client", "collector", "gateway", "http", "model", "utils", "rustls_backend"] }
thiserror = "=1.0.69"
tokio = { version = "=1.54.1", features = ["macros", "rt-multi-thread", "sync", "time"] }
