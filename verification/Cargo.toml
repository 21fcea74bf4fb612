[package]
name = "procli"
version = "0.1.0"
edition = "2021"
publish = false

[dependencies]
shlex = "*"
clap = { version = "*", features = ["derive"] }
color-eyre = "*"
config = "*"
crossterm = "*"
futures = "*"
log = "*"
notify = "*"
ratatui = "*"
serde = { version = "*", features = ["derive"] }
sysinfo = "*"
tokio = { version = "*", features = ["full"] }
tui-logger = "*"
