[package]
name = "grov"
version = "0.1.0"
edition = "2021"
publish = false

[dependencies]
anyhow = "1"
clap = { version = "4", features = ["derive"] }
clap_complete = "4"
console = "*"
crossterm = "*"
ratatui = "*"
serde = { version = "1", features = ["derive"] }
thiserror = "*"
toml = "*"
