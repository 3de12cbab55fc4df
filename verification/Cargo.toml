[package]
name = "patchpal"
version = "0.1.0"
edition = "2021"
publish = false

[dependencies]
anyhow = "=1.0.104"
crossterm = { version = "=0.29.0", features = ["event-stream"] }
futures-util = "=0.3.34"
git2 = "=0.21.0"
log = "=0.4.34"
octocrab = "=0.41.2"
ratatui = "=0.30.2"
simplelog = "=0.12.2"
stderrlog = "=0.6.0"
tokio = { version = "=1.53.2", features = ["full"] }
tokio-tungstenite = "=0.30.0"
tokio-util = "=0.7.19"
tui-scrollview = "=0.6.8"
