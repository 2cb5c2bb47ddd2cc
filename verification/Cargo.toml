[package]
name = "kata"
version = "0.1.0"
edition = "2021"
publish = false

[dependencies]
anyhow = "*"
clap = { version = "*", features = ["derive"] }
derive_more = { version = "*", features = ["full"] }
pin-project = "*"
rand = "*"
tokio = { version = "*", features = ["full"] }
