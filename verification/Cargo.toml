[package]
name = "sshp"
version = "0.1.0"
edition = "2021"
publish = false

[dependencies]
anyhow = "1"
chrono = "0.4"
clap = "*"
dirs = "*"
fork = "*"
fs2 = "*"
serde = { version = "1", features = ["derive"] }
toml = "*"
