[package]
name = "devoter"
version = "0.1.0"
edition = "2021"
publish = false

[dependencies]
fastrand = "2"
mimalloc = "0.1"
openssl = "0.10"
rand = "0.9"
rsa = { version = "0.9", features = ["getrandom"] }
serde = { version = "1", features = ["derive"] }
serde_json = "1"
thiserror = "2"
tokio = { version = "1", features = ["rt-multi-thread", "macros", "net", "time", "sync", "io-util"] }
