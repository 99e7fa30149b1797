[package]
name = "cross_toolchain"
version = "0.1.0"
edition = "2021"
publish = false

[dependencies]
sysinfo = "*"
home = "*"
clap = { version = "*", features = ["derive"] }
anyhow = "*"
log = "*"
