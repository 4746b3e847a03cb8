[package]
name = "putio_browse"
version = "0.1.0"
edition = "2021"
publish = false

[dependencies]
arboard = { version = "3", default-features = false }
crossterm = "0.27"
ratatui = "0.26"
reqwest = { version = "0.11", default-features = false, features = ["blocking"] }
