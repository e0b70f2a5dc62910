[package]
name = "osp_bridge"
version = "0.1.0"
edition = "2021"
publish = false

[dependencies]
anyhow = "1"
clap = { version = "4", features = ["derive"] }
env_logger = "0.10"
ethabi = "18"
hex = "0.4"
log = "0.4"
parity-scale-codec = "3"
risc0-zkvm = { version = "*", default-features = false, features = ["client"] }
wasmi = "*"
wat = "1"
