[package]
name = "chiptunomatic"
version = "0.3.0"
edition = "2021"
publish = false

[dependencies]
md5 = "=0.7.0"
anyhow = "=1.0.104"
clap = { version = "=4.6.7", features = ["derive"] }
cli-log = "=2.1.1"
crossterm = "=0.29.0"
directories = "=5.0.1"
dyn-clone = "=1.0.20"
hound = "=3.5.1"
rand = "=0.8.8"
ratatui = { version = "=0.30.2", features = ["unstable-rendered-line-info", "unstable-widget-ref"] }
ratatui-explorer = "=0.3.0"
serde = { version = "=1.0.229", features = ["derive"] }
serde_yaml = "=0.9.34"
thiserror = "=1.0.69"
wasm-bindgen = "=0.2.130"
