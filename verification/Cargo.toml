[package]
name = "muse"
version = "0.1.0"
edition = "2021"
publish = false

[dependencies]
anyhow = "1"
cpal = "0.11"
crossbeam = "0.8"
