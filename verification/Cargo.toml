[package]
name = "dotfiles_rs"
version = "0.1.0"
edition = "2021"
publish = false

[dependencies]
clap = "=3.2.25"
dirs = "=7.0.0"
env_logger = "=0.11.11"
git2 = { version = "=0.21.0", features = ["ssh"] }
log = "=0.4.34"
rayon = "=1.12.0"
serde = { version = "=1.0.229", features = ["derive"] }
serde_yaml = "0.9"
