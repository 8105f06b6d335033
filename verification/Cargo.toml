[package]
name = "latency_probe"
version = "0.1.0"
edition = "2021"
publish = false

[dependencies]
clap = { version = "4", features = ["derive"] }
plotters = "0.3"
reqwest = { version = "0.12", features = ["blocking"] }
