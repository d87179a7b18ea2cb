[package]
name = "serverlessinterface"
version = "0.1.0"
edition = "2021"
publish = false

[dependencies]
uuid = { version = "1", features = ["v4"] }
rand = "0.8"
md5 = "0.7"
chacha20poly1305 = "0.10"
libc = "0.2"
fuser = { version = "0.14", default-features = false }
bincode = "1"
serde = { version = "1", features = ["derive"] }
tokio = { version = "1", features = ["full"] }
log = "0.4"
env_logger = "0.10"
clap = "4"
