[package]
name = "tokio_util_watchdog"
version = "0.1.0"
edition = "2021"
publish = false

[dependencies]
tokio = { version = "=1.44.2", features = ["rt", "rt-multi-thread", "time"] }
tracing = "=0.1.44"
