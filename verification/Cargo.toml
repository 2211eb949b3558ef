[package]
name = "grok-code"
version = "0.1.0"
edition = "2021"
publish = false

[dependencies]
async-trait = "0.1"
base64 = "0.22"
chrono = "0.4"
clap = { version = "4", features = ["derive"] }
colored = "2"
crossterm = "0.27"
dirs = "5"
git2 = { version = "0.18", default-features = false }
keyring = { version = "2", default-features = false }
once_cell = "1"
ratatui = "0.26"
regex = "1"
reqwest = { version = "0.12", default-features = false, features = ["json"] }
ropey = "1"
serde = { version = "1", features = ["derive"] }
serde_json = "1"
sha2 = "0.10"
thiserror = "1"
tokio = { version = "1", features = ["full"] }
toml = "0.8"
urlencoding = "2"
walkdir = "2"
