[package]
name = "watch_rs"
version = "0.1.0"
edition = "2021"
publish = false

[dependencies]
rand = "0.8"
subprocess = "0.2"
rexpect = "0.5"
crossbeam-channel = "0.5"
clap = { version = "4", features = ["derive"] }
crossterm = "0.28"
ratatui = "0.29"
tui-textarea = "0.7"
strum = { version = "0.26", features = ["derive"] }
signal-hook = "0.3"
log = "0.4"
log4rs = "1"
once_cell = "1"
tempfile = "3"
chrono = "0.4"
iana-time-zone = "0.1"
