[package]
name = "easy_ga"
version = "0.1.0"
edition = "2021"
publish = false

[dependencies]
rand = "0.8"
cpu-time = "1"
uuid = { version = "1", features = ["v4"] }
lazy_static = "1"
