[package]
name = "playback"
version = "0.1.0"
edition = "2021"
publish = false

[dependencies]
tokio = { version = "1", features = ["sync", "rt-multi-thread", "macros", "time"] }
crossterm = "0.25"
tui = "0.19"
log = "0.4"
eyre = "0.6"
rand = "0.8"
rodio = "0.17"
pyo3 = "0.20"
