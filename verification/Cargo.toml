[package]
name = "remote_manager"
version = "0.1.0"
edition = "2021"
publish = false

[dependencies]
anyhow = "1"
xshell = "0.2"
