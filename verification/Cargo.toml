[package]
name = "s3_export"
version = "0.1.0"
edition = "2021"
publish = false

[dependencies]
zip = { version = "*", default-features = false, features = ["deflate"] }
serde = { version = "*", features = ["derive"] }
axum = "*"
tokio = { version = "*", features = ["macros", "rt-multi-thread", "io-util"] }
tokio-util = { version = "*", features = ["io"] }
async-trait = "*"
aws-config = "*"
aws-sdk-s3 = "*"
log = "*"
