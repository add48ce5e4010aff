[package]
name = "turn_transfer"
version = "0.1.0"
edition = "2021"
publish = false

[dependencies]
bincode = "1.3"
rand = "0.8"
clap = { version = "4", features = ["derive"] }
csv = "1"
