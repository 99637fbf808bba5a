[package]
name = "my_rust_service"
version = "0.1.0"
edition = "2021"
publish = false

[dependencies]
serde = { version = "*", features = ["derive"] }
serde_json = "*"
chrono = "*"
anyhow = "*"
thiserror = "*"
dotenvy = "*"
tokio = { version = "*", features = ["macros", "rt-multi-thread", "time", "net"] }
axum = "*"
reqwest = { version = "*", default-features = false, features = ["json"] }
aws-config = "*"
aws-sdk-s3 = "*"
