[package]
name = "auth_monitor"
version = "0.1.0"
edition = "2021"
publish = false

[dependencies]
chrono = { version = "0.4", default-features = false, features = ["clock", "std"] }
inotify = { version = "0.10", default-features = false }
signal-hook = "0.3"
