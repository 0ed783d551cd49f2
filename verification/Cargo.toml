[package]
name = "emergency_brake"
version = "0.1.0"
edition = "2021"
publish = false

[dependencies]
async-trait = "*"
reqwest = { version = "*", default-features = false }
tokio = { version = "*", default-features = false, features = ["rt", "time"] }
tracing = "*"
