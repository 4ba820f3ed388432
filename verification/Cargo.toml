[package]
name = "human_detector"
version = "0.1.0"
edition = "2021"
publish = false

[dependencies]
anyhow = "=1.0.104"
crossbeam-channel = "=0.5.17"
eframe = { version = "=0.22.0", default-features = false, features = ["glow"] }
opencv = "=0.84.5"
rfd = "0.14"
