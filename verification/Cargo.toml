[package]
name = "what_time"
version = "0.2.0"
edition = "2021"
publish = false

[dependencies]
chrono = "*"
chrono-tz = "*"
clap = "*"
reqwest = { version = "*", default-features = false, features = ["blocking"] }
