[package]
name = "hostprobe"
version = "0.1.0"
edition = "2021"
publish = false

[dependencies]
chrono = { version = "0.4", default-features = false, features = ["std"] }
reqwest = { version = "0.12", features = ["blocking"] }
serde_json = "1"
sys-info = "0.9"
uname-rs = "*"
uptime_lib = "*"
