[package]
name = "dispatch_core"
version = "0.1.0"
edition = "2021"
publish = false

[dependencies]
chrono = { version = "=0.4.45", default-features = false, features = ["clock"] }
once_cell = "=1.21.4"
parking_lot = "=0.12.5"
regex = "=1.13.1"
serde_json = "=1.0.154"
tokio = { version = "=1.54.1", features = ["rt", "sync", "time"] }
