[package]
name = "service_monitor"
version = "0.1.0"
edition = "2021"
publish = false

[dependencies]
chrono = "*"
clap = { version = "*", features = ["derive"] }
colored = "*"
notify-rust = "*"
reqwest = { version = "*", default-features = false, features = ["blocking"] }
