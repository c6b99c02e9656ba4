[package]
name = "trust_cli"
version = "0.1.0"
edition = "2021"
publish = false

[dependencies]
clap = "4"
rust_decimal = "1"
uuid = "1"
dialoguer = { version = "0.11", features = ["fuzzy-select"] }
keyring = "3"
chrono = "0.4"
serde_json = "1"
