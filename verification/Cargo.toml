[package]
name = "csv2ics"
version = "0.1.0"
edition = "2021"
publish = false

[dependencies]
csv = "1"
ics = "0.5"
uuid = { version = "1", features = ["v4"] }
clap = { version = "4", features = ["derive"] }
