[package]
name = "loadbench"
version = "0.1.0"
edition = "2021"
publish = false

[dependencies]
async-channel = "1"
async-trait = "0.1"
chrono = "0.4"
csv = "1"
rand = "0.8"
rand_distr = "0.4"
serde = { version = "1", features = ["derive"] }
tokio = { version = "1", features = ["rt", "time"] }
tracing = "0.1"
