[package]
name = "ftp_server"
version = "0.1.0"
edition = "2021"
publish = false

[dependencies]
dunce = "1"
env_logger = "0.11"
log = "0.4"
tokio = { version = "1", features = ["fs", "io-util", "macros", "net", "process", "rt-multi-thread", "signal", "sync"] }
