[package]
name = "verify_pipeline"
version = "0.1.0"
edition = "2021"
publish = false

[dependencies]
camino = "*"
reqwest = { version = "*", default-features = false }
walkdir = "*"
promptly = "*"
clap = { version = "*", features = ["derive"] }
anyhow = "*"
async-trait = "*"

[dev-dependencies]
serde_json = "*"
