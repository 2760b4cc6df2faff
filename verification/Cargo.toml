[package]
name = "manga_reader"
version = "0.1.0"
edition = "2021"
publish = false

[dependencies]
anyhow = "=1.0.104"
dirs = "=7.0.0"
log = "=0.4.35"
ratatui = "=0.30.2"
ratatui-image = { version = "=11.1.0", default-features = false, features = ["image-defaults", "crossterm"] }
serde = { version = "=1.0.229", features = ["derive"] }
serde_json = "=1.0.154"
