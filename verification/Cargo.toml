[package]
name = "rama"
version = "0.1.0"
edition = "2021"
publish = false

[dependencies]
tokio = { version = "1", features = ["rt", "rt-multi-thread", "sync", "time", "macros", "signal", "io-util", "net"] }
tokio-util = "0.7"
pin-project-lite = "0.2"
