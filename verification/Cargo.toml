[package]
name = "tidy"
version = "0.1.0"
edition = "2021"
publish = false

[dependencies]
chrono = "0.4"
crossterm = "0.25"
rusqlite = { version = "0.29", features = ["bundled"] }
structopt = "0.3"
tui = "0.19"
