[package]
name = "mini_tiktok_auth"
version = "0.1.0"
edition = "2021"
publish = false

[dependencies]
argon2 = "*"
uuid = { version = "*", features = ["v4"] }
redis = { version = "*", features = ["tokio-comp"] }
bb8-bolt = "*"
tokio = { version = "*", features = ["full"] }
futures-core = "*"
log = "*"
env_logger = "*"
