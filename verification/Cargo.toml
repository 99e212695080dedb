[package]
name = "pomosh"
version = "0.1.0"
edition = "2021"

[dependencies]
chrono = "0.4"
clap = { version = "4", features = ["derive"] }
colored = "2"
rodio = "0.19"
