[package]
name = "athame"
version = "0.1.0"
edition = "2021"
publish = false

[dependencies]
uuid = { version = "1", features = ["v4"] }
termion = "*"
clap = { version = "4", features = ["derive"] }
