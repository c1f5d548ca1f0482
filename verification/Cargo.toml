[package]
name = "snx_platform"
version = "0.1.0"
edition = "2021"
publish = false

[dependencies]
anyhow = "1"
async-trait = "0.1"
libc = "0.2"
secret-service = { version = "3", features = ["rt-tokio-crypto-rust"] }
tokio = { version = "1", features = ["net", "time"] }
tracing = "0.1"
tun = "0.6"
zbus = { version = "3", default-features = false, features = ["tokio"] }
