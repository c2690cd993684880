[package]
name = "mail_to_telegram"
version = "0.1.0"
edition = "2021"
publish = false

[dependencies]
async-std = "*"
mailin = "*"
log = "*"
reqwest = { version = "*", default-features = false, features = ["multipart"] }
tokio = { version = "*", features = ["rt-multi-thread"] }
clap = { version = "*", features = ["derive"] }
simple_logger = "*"
num_cpus = "*"

[dev-dependencies]
serde_json = "*"
