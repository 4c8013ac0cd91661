[package]
name = "konfctl"
version = "0.1.0"
edition = "2021"
publish = false

[dependencies]
anyhow = "1"
clap = { version = "4", features = ["derive"] }
colored = "3"
console = "0.15"
crossterm = "0.28"
dialoguer = { version = "0.11", features = ["fuzzy-select"] }
dirs = "6"
indicatif = "0.17"
open = "5"
ratatui = "0.29"
reqwest = { version = "0.12", default-features = false, features = ["json", "rustls-tls"] }
serde = { version = "1", features = ["derive"] }
serde_json = "1"
tempfile = "3"
terminal_size = "0.4"
tiny_http = "0.12"
tokio = { version = "1", features = ["full"] }
toml = "0.8"
url = "2"
uuid = { version = "1", features = ["v4"] }
