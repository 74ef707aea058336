[package]
name = "cyberdeck_kb"
version = "0.1.0"
edition = "2021"
publish = false

[dependencies]
crossterm = "0.27"
evdev = "0.12"
portable-pty = "0.8"
vt100 = "0.15"
serde = { version = "1", features = ["derive"] }
toml = "0.8"
