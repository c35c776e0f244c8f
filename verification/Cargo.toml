[package]
name = "sint"
version = "0.1.0"
edition = "2021"
publish = false

[dependencies]
tokio = { version = "1", features = ["time", "rt", "rt-multi-thread"] }
gloo-timers = { version = "0.3", features = ["futures"] }
