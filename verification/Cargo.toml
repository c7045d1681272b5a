[package]
name = "pty_runner"
version = "0.1.0"
edition = "2021"
publish = false

[dependencies]
nix = "=0.26.4"
thiserror = "=1.0.69"

[dev-dependencies]
fork = "*"
