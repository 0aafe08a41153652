[package]
name = "crb"
version = "0.1.0"
edition = "2021"
publish = false

[dependencies]
futures = "*"
tokio = { version = "*", features = ["rt-multi-thread", "sync", "time", "macros"] }
