[package]
name = "klask"
version = "0.1.0"
edition = "2021"
publish = false

[dependencies]
uuid = { version = "1", features = ["v4"] }
Inflector = "0.11"
clap = "4"
