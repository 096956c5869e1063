[package]
name = "rust_tig"
version = "0.1.0"
edition = "2021"
publish = false

[dependencies]
tokio = { version = "*", features = ["sync", "rt-multi-thread", "macros", "time"] }
git2 = { version = "*", default-features = false }
chrono = "*"
ratatui = "*"
crossterm = "*"
serde = { version = "*", features = ["derive"] }
serde_yaml = "*"
dirs = "*"
