[package]
name = "netdash"
version = "0.1.0"
edition = "2021"
publish = false

[dependencies]
crossterm = "=0.27.0"
netstat2 = "0.11"
ratatui = "=0.26.3"
sysinfo = "=0.30.13"
tokio = { version = "=1.54.1", features = ["full"] }
