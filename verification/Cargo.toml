[package]
name = "pocket_ark_client"
version = "0.1.0"
edition = "2021"
publish = false

[dependencies]
tokio = { version = "1", features = ["rt-multi-thread", "net", "io-util", "macros", "sync", "time"] }
hyper = { version = "0.14", features = ["server", "http1", "tcp"] }
reqwest = { version = "0.11", features = ["json"] }
openssl = "0.10"
tokio-openssl = "0.6"
local-ip-address = "*"
serde = { version = "1", features = ["derive"] }
log = "0.4"
env_logger = "0.10"
