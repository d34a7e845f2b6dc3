[package]
name = "cancellable"
version = "0.1.0"
edition = "2021"
publish = false

[dependencies]
async-trait = "0.1"
pin-project = "1"
tokio = { version = "1", features = ["macros", "rt", "rt-multi-thread", "sync", "time"] }
tokio-util = "0.7"

[dev-dependencies]
anyhow = "1"
