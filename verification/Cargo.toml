[package]
name = "forest-server"
version = "0.1.0"
edition = "2021"
publish = false

[dependencies]
shlex = "1"
rand = "0.8"
tokio = { version = "1", features = ["full"] }
axum = "0.7"
tower-http = { version = "0.5", features = ["cors", "fs", "trace"] }
tokio-stream = { version = "0.1", features = ["sync"] }
watchexec = "3"
watchexec-events = "2"
watchexec-signals = "2"
notify-rust = "4"
clap = "4"
miette = "7"
log = "0.4"
tracing = "0.1"
tracing-subscriber = { version = "0.3", features = ["env-filter"] }
tracing-appender = "0.2"
tracing-log = "0.2"
xdg = "2"
which = "6"
parking_lot = "0.12"
crossterm = "0.27"
ratatui = "0.26"
minijinja = "1"
