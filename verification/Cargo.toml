[package]
name = "sechat_rs"
version = "0.1.0"
edition = "2021"
publish = false

[dependencies]
chrono = "=0.4.45"
textwrap = "=0.16.4"
base64 = "=0.22.1"
itertools = "=0.13.0"
serde = { version = "=1.0.229", features = ["derive"] }
serde_json = "=1.0.154"
tokio = { version = "=1.54.1", features = ["full"] }
tokio-util = "=0.7.20"
async-trait = "=0.1.92"
reqwest = { version = "=0.12.28", default-features = false, features = ["json", "rustls-tls"] }
jzon = "=0.12.5"
ratatui = "=0.29.0"
crossterm = "=0.28.1"
tui-textarea = "=0.7.0"
tui-tree-widget = "=0.23.1"
notify-rust = "=4.18.2"
log = "=0.4.35"
log4rs = "=1.4.0"
etcetera = "=0.8.0"
toml = "=0.8.23"
toml-example = "=0.17.2"
clap = { version = "=4.6.7", features = ["derive"] }
color-eyre = "=0.6.5"
random_color = "*"
