[package]
name = "benchmarking_platform"
version = "0.1.0"
edition = "2021"
publish = false

[dependencies]
actix-multipart = "0.7"
actix-web = "4"
async_zip = { version = "0.0.17", features = ["tokio", "deflate"] }
bollard = "0.17"
env_logger = "0.11"
futures-util = "0.3"
log = "0.4"
rand = "0.8"
serde = { version = "1", features = ["derive"] }
tokio = { version = "1", features = ["full"] }
tokio-tar = "0.3"
tokio-util = { version = "0.7", features = ["compat"] }
uuid = { version = "1", features = ["v4"] }
