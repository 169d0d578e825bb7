[package]
name = "powenetics_v2"
version = "0.1.0"
edition = "2021"
publish = false

[dependencies]
anyhow = "1"
clap = { version = "4", features = ["derive"] }
csv = "1"
serialport = { version = "4", default-features = false }
thiserror = "1"
