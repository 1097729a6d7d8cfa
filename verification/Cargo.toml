[package]
name = "neopdf"
version = "0.1.0"
edition = "2021"
publish = false

[dependencies]
ndarray = { version = "0.16", features = ["serde"] }
serde = { version = "1", features = ["derive"] }
