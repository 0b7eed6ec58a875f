[package]
name = "nc-cli"
version = "0.1.0"
edition = "2021"
publish = false

[dependencies]
clap = { version = "=4.6.7", features = ["derive"] }
serde = { version = "1", features = ["derive"] }
ssh2 = "=0.9.6"
toml = "=1.1.8"
