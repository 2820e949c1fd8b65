[package]
name = "erlup"
version = "0.1.0"
edition = "2021"
publish = false

[dependencies]
clap = { version = "4", features = ["derive"] }
console = "0.15"
dirs = "5"
env_logger = "0.11"
glob = "0.3"
log = "0.4"
num_cpus = "1"
rust-ini = "0.21"
tar = "0.4"
tempdir = "0.3"

[dev-dependencies]
shell-words = "1"
