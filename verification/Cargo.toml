[package]
name = "task_retry"
version = "0.1.0"
edition = "2021"
publish = false

[dependencies]
anyhow = "1"
rand = "0.8"
tokio = { version = "1", features = ["rt", "rt-multi-thread", "time"] }
