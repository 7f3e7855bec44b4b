[package]
name = "groupme_tui"
version = "0.1.0"
edition = "2021"
publish = false

[dependencies]
chrono = "0.4"
crossterm = "0.25"
dirs = "*"
notify-rust = "4"
serde = { version = "1", features = ["derive"] }
serde_json = "1"
textwrap = "0.16"
toml = "*"
tui = "0.19"
tungstenite = "*"
ureq = { version = "2", features = ["json"] }
url = "2"
