[package]
name = "distrovitals"
version = "0.1.0"
edition = "2021"
publish = false

[dependencies]
axum = "*"
chrono = "*"
clap = { version = "*", features = ["derive"] }
reqwest = { version = "*", default-features = false, features = ["json", "rustls-tls"] }
serde = { version = "*", features = ["derive"] }
serde_json = "*"
sqlx = { version = "*", default-features = false, features = ["runtime-tokio", "sqlite", "chrono"] }
thiserror = "*"
tokio = { version = "*", features = ["macros", "rt-multi-thread", "net", "time"] }
tower-http = { version = "*", features = ["cors", "compression-gzip", "fs"] }
tracing = "*"
tracing-subscriber = "*"
