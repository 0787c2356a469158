[package]
name = "mcm_runtime"
version = "0.1.0"
edition = "2021"
publish = false

[dependencies]
dashmap = "6"
tokio = { version = "1", features = ["rt-multi-thread"] }
log = "0.4"
env_logger = "0.11"
