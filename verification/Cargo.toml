[package]
name = "rustify"
version = "0.1.0"
edition = "2021"
publish = false

[dependencies]
clap = "2"
colored = "2"
chrono = "0.4"
whoami = "1"
