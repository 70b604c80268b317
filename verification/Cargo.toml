[package]
name = "judger"
version = "0.1.0"
edition = "2021"
publish = false

[dependencies]
nix = { version = "0.29", features = ["process", "signal", "resource", "user"] }
seccompiler = "0.4"
dotenvy = "0.15"
log = "0.4"
env_logger = "0.11"
tide = "0.16"
async-std = { version = "1", features = ["attributes"] }
