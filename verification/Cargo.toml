[package]
name = "motus"
version = "0.1.0"
edition = "2021"
publish = false

[dependencies]
rand = "0.8"
zxcvbn = "2"
term-table = "1.3"
colored = "2"
clap = { version = "4", features = ["derive"] }
human-panic = "1"
arboard = { version = "3", default-features = false }
serde = { version = "1", features = ["derive"] }
serde_json = "1"
