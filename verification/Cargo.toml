[package]
name = "timez"
version = "0.1.0"
edition = "2021"
publish = false

[dependencies]
chrono = "0.4"
chrono-tz = "0.10"
clap = { version = "4", features = ["derive"] }
config = "*"
homedir = "*"
serde = { version = "1", features = ["derive"] }
