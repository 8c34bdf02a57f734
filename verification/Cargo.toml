[package]
name = "shutdown_monitor"
version = "0.1.0"
edition = "2021"
publish = false

[dependencies]
tokio = { version = "*", features = ["rt", "macros", "signal", "time"] }
futures = "*"
libc = "*"
