[package]
name = "binary_clock"
version = "0.1.0"
edition = "2021"
publish = false

[dependencies]
chrono = { version = "0.4", default-features = false, features = ["clock"] }
futures-util = "0.3"
tokio = { version = "1", features = ["time"] }
