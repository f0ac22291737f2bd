[package]
name = "uds_client_rs"
version = "0.1.0"
edition = "2021"
publish = false

[dependencies]
automotive_diag = "*"
embedded-can = "0.4"
embedded-io-async = "*"
nb = "1"
tokio = { version = "1", features = ["sync", "time", "rt", "rt-multi-thread", "macros", "fs", "io-util", "io-std"] }
socketcan = "3"
peak-can = "*"
chrono = "0.4"
thiserror = "*"
log = "0.4"
env_logger = "*"
