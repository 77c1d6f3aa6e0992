[package]
name = "shunt_monitor"
version = "0.1.0"
edition = "2021"
publish = false

[dependencies]
btleplug = "*"
chrono = "*"
clap = { version = "*", features = ["derive"] }
futures = "*"
serialport = "*"
tokio = { version = "*", features = ["rt-multi-thread", "macros", "time"] }
uuid = "*"
