[package]
name = "hourglass"
version = "0.1.0"
edition = "2021"
publish = false

[dependencies]
chrono = "0.4"
tokio = { version = "1", features = ["rt", "rt-multi-thread", "time", "macros"] }
auto-launch = "0.5"
