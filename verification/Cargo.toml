[package]
name = "file_cipher"
version = "0.1.0"
edition = "2021"
publish = false

[dependencies]
openssl = "=0.10.81"
rand = "=0.10.3"
anyhow = "=1.0.104"
clap = { version = "=4.6.7", features = ["derive"] }
clap-verbosity-flag = "=3.0.4"
env_logger = "=0.11.11"
log = "=0.4.34"
