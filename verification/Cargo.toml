[package]
name = "synctr_engine"
version = "0.1.0"
edition = "2021"
publish = false

[dependencies]
dirs = "5"
clap = { version = "4", features = ["derive"] }
crossterm = "0.28"
ratatui = "0.29"
notify = "6"
serde = { version = "1", features = ["derive"] }
serde_json = "1"
toml = "0.8"
thiserror = "2"
libc = "0.2"
