[package]
name = "oracle_push"
version = "0.1.0"
edition = "2021"
publish = false

[dependencies]
clap = { version = "4", features = ["derive"] }
miden-client = { version = "0.5" }
miden-objects = { version = "0.5" }
miden-tx = { version = "0.5" }
winter-maybe-async = { version = "0.10" }
