[package]
name = "file_revlog"
version = "0.1.0"
edition = "2021"
publish = false

[dependencies]
anyhow = "1"
chrono = "0.4"
crossbeam-channel = "0.5"
crossterm = "0.25"
tui = { version = "0.19", default-features = false, features = ["crossterm"] }
