[package]
name = "qubit_clock"
version = "0.1.0"
edition = "2021"
publish = false

[dependencies]
chrono = { version = "0.4", default-features = false, features = ["clock", "std"] }
parking_lot = "0.12"
thiserror = "2"
tokio = { version = "1", default-features = false, features = ["rt", "time", "sync"] }
