[package]
name = "bottled-shell"
version = "0.1.0"
edition = "2021"
publish = false

[dependencies]
nix = "0.26"
libc = "0.2"
clap = "2"
log = "0.4"
pretty_env_logger = "0.4"
thiserror = "1"
