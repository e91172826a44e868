[package]
name = "voting_machine"
version = "0.1.0"
edition = "2021"
publish = false

[dependencies]
rusqlite = { version = "=0.41.1", features = ["bundled"] }
chrono = "=0.4.45"
