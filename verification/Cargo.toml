[package]
name = "terran_core"
version = "0.1.0"
edition = "2021"
publish = false

[dependencies]
rust-sc2 = "1"
rustc-hash = "1"
clap = { version = "4", features = ["derive"] }
num-traits = "0.2"
