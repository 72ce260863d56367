[package]
name = "daqlab"
version = "0.1.0"
edition = "2021"
publish = false

[dependencies]
chrono = "0.4"
crossbeam-channel = "0.5"
rusqlite = { version = "0.32", features = ["bundled"] }
