[package]
name = "pathedit"
version = "0.1.0"
edition = "2021"
publish = false

[dependencies]
crossterm = "0.25"
tui = { version = "0.19", features = ["crossterm"] }
