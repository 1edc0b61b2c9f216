[package]
name = "raijin"
version = "0.1.0"
edition = "2021"
publish = false

[dependencies]
chrono = "0.4"
urlencoding = "2"
serde = { version = "1", features = ["derive"] }
serde_json = "1"
ureq = "3"
ratatui = "0.29"
crossterm = "0.28"
dirs = "*"
dotenv = "0.15"
