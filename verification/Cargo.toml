[package]
name = "raptors"
version = "0.1.0"
edition = "2021"
publish = false

[dependencies]
tokio = { version = "1", features = ["sync", "time", "rt", "rt-multi-thread", "macros"] }
uuid = { version = "1", features = ["v4"] }

[dev-dependencies]
fnv = "1"
