[package]
name = "tokio_smux"
version = "0.1.0"
edition = "2021"
publish = false

[dependencies]
byteorder = "1"
dashmap = "5"
log = "0.4"
thiserror = "1"
tokio = { version = "1", features = ["io-util", "macros", "rt", "sync", "time"] }
