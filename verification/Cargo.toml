[package]
name = "fast_parser"
version = "0.1.0"
edition = "2021"
publish = false

[dependencies]
arrow = { version = "*", default-features = false, features = ["ipc"] }
parquet = { version = "*", default-features = false, features = ["arrow"] }
chrono = { version = "0.4", default-features = false }
serde = { version = "1", features = ["derive"] }
serde_json = "1"
pyo3 = "*"
rayon = "1"
statrs = "*"
implied-vol = "*"

[dev-dependencies]
bytes = "1"
