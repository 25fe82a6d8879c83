[package]
name = "binary_merger"
version = "0.1.0"
edition = "2021"
publish = false

[dependencies]
anyhow = "1"
chrono = "0.4"
goblin = "*"
log = "0.4"
