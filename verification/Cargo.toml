[package]
name = "cargo-pgoe"
version = "0.1.0"
edition = "2021"
publish = false

[dependencies]
anyhow = "1"
cargo_metadata = "0.15"
clap = { version = "3.2", features = ["derive"] }
colored = "2"
env_logger = "0.9"
log = "0.4"
