[package]
name = "spectrometer"
version = "0.1.0"
edition = "2021"
publish = false

[dependencies]
anyhow = "1"
bytes = "1"
maia-json = "*"
tokio = { version = "1", features = ["sync", "rt-multi-thread", "macros", "time"] }
