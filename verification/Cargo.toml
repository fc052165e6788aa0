[package]
name = "sysdash"
version = "0.1.0"
edition = "2021"
publish = false

[dependencies]
sysinfo = "0.30"
tokio = { version = "1", features = ["rt", "rt-multi-thread", "sync", "time", "macros"] }
tokio-util = "0.7"
crossterm = { version = "0.27", features = ["event-stream"] }
futures = "0.3"
directories = "5"
signal-hook = "0.3"
