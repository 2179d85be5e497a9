[package]
name = "qurl_core"
version = "0.1.0"
edition = "2021"
publish = false

[dependencies]
anyhow = "*"
async-lock = "*"
async-std = "*"
backtrace = "*"
clap = { version = "*", features = ["derive"] }
crossterm = "*"
futures = "*"
futures-timer = "*"
reqwest = { version = "*", default-features = false, features = ["blocking", "json"] }
serde_json = "*"
syntect = "*"
tui = { version = "*", default-features = false, features = ["crossterm"] }
