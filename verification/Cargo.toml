[package]
name = "matrix_engine"
version = "0.1.0"
edition = "2021"
publish = false

[dependencies]
num_cpus = "1"
anymap = "0.12"
tokio = { version = "1", features = ["sync"] }
