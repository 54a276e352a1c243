[package]
name = "spider"
version = "0.1.0"
edition = "2021"
publish = false

[dependencies]
anyhow = "*"
base64 = "*"
env_logger = "*"
futures = "*"
governor = "*"
log = "*"
nonzero_ext = "*"
num_cpus = "*"
redis = { version = "*", features = ["tokio-comp"] }
reqwest = { version = "*", default-features = false, features = ["socks", "stream", "rustls-tls"] }
tokio = { version = "*", features = ["rt-multi-thread", "sync", "time", "macros"] }
url = "*"
uuid = { version = "*", features = ["v4"] }
