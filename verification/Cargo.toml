[package]
name = "cli_transfer"
version = "0.1.0"
edition = "2021"
publish = false

[dependencies]
anyhow = "*"
reqwest = { version = "*", default-features = false, features = ["multipart"] }
serde_json = "*"
tokio = { version = "*", default-features = false, features = ["macros", "rt-multi-thread", "fs", "io-util"] }
