[package]
name = "sqlstream"
version = "0.1.0"
edition = "2021"
publish = false

[dependencies]
sqlx-oldapi = { version = "=0.6.59", default-features = false, features = ["any", "runtime-tokio-rustls", "sqlite"] }
async-stream = "*"
futures-util = "*"
anyhow = "*"
log = "*"
