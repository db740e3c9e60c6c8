[package]
name = "awaitstate"
version = "0.1.0"
edition = "2021"
publish = false

[dependencies]
dashmap = "6"
thiserror = "2"
tokio = { version = "1", features = ["rt", "sync", "time"] }
