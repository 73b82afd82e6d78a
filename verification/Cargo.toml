[package]
name = "serial_term"
version = "0.1.0"
edition = "2021"
publish = false

[dependencies]
unicode-width = "*"
crossterm = "*"
crossbeam-channel = "*"
bytes = "*"
futures = "*"
tokio = { version = "*", features = ["rt", "macros", "io-util", "time", "sync"] }
tokio-serial = "*"
tokio-util = { version = "*", features = ["codec"] }
