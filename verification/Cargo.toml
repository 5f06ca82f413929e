[package]
name = "tenx"
version = "0.1.0"
edition = "2021"
publish = false

[dependencies]
alacritty_terminal = "0.25"
anyhow = "1"
crossterm = "0.28"
libc = "0.2"
portable-pty = "0.8"
ratatui = "0.29"
serde = { version = "1", features = ["derive"] }
serde_json = "1"
thiserror = "2"
toml = "0.8"
tui-term = "0.2"
unicode-width = "0.2"
vt100 = "0.15"
