[package]
name = "lnetm"
version = "0.1.0"
edition = "2021"
publish = false

[dependencies]
clap = { version = "*", features = ["cargo"] }
daemonize = "*"
dirs = "*"
fastping-rs = "*"
libc = "*"
log = "*"
log4rs = "*"
notify-rust = "*"
