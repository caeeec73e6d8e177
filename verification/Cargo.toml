[package]
name = "order_core"
version = "0.1.0"
edition = "2021"
publish = false

[dependencies]
dashmap = "*"
chrono = "*"
tokio = { version = "*", features = ["sync", "rt", "rt-multi-thread", "macros", "time"] }
awc = "*"
