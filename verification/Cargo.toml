[package]
name = "clipboard_sync"
version = "0.1.0"
edition = "2021"
publish = false

[dependencies]
clap = "*"
clap_complete = "*"
dirs = "*"
serde = { version = "*", features = ["derive"] }
serde_json = "*"
toml = "*"
x11-clipboard = "*"
