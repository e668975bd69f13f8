[package]
name = "stof_cli"
version = "0.1.0"
edition = "2021"
publish = false

[dependencies]
http-auth-basic = "*"
regex = "*"
reqwest = { version = "*", default-features = false }
tokio = { version = "*", features = ["rt-multi-thread", "macros", "sync"] }
stof = "*"
clap = { version = "*", features = ["derive"] }
colored = "*"
colog = "*"
env_logger = "*"
log = "*"
bytes = "*"
