[package]
name = "multiping"
version = "0.1.0"
edition = "2021"
publish = false

[dependencies]
anyhow = "1"
async-trait = "0.1"
chrono = "0.4"
clap = { version = "4", features = ["derive"] }
futures = "0.3"
rand = "0.8"
signal-hook = "0.3"
surge-ping = "0.8"
tokio = { version = "1", features = ["full"] }
