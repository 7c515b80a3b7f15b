[package]
name = "cargo_apk"
version = "0.1.0"
edition = "2021"
publish = false

[dependencies]
dunce = "1"
cargo-subcommand = "*"
