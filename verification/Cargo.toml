[package]
name = "flash_monitor"
version = "0.1.0"
edition = "2021"
publish = false

[dependencies]
chksum = "=0.4.0"
dioxus = { version = "=0.6.3", default-features = false, features = ["macro", "html", "hooks", "signals", "launch", "logger"] }
probe-rs = "=0.27.0"
rfd = { version = "=0.15.4", default-features = false, features = ["xdg-portal", "tokio"] }
tokio = { version = "=1.54.1", features = ["time"] }
