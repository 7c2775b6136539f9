[package]
name = "recorder_core"
version = "0.1.0"
edition = "2021"
publish = false

[dependencies]
anyhow = "1"
chrono = "0.4"
clap = { version = "4", features = ["derive"] }
ctrlc = "3"
shellexpand = "3"
tokio = { version = "1", features = ["rt-multi-thread", "signal"] }
