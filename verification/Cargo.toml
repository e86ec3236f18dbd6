[package]
name = "x9_transfer"
version = "0.1.0"
edition = "2021"
publish = false

[dependencies]
tokio = { version = "1", features = ["rt-multi-thread", "macros", "sync", "time", "signal", "fs", "io-util"] }
sqlx = { version = "0.8", default-features = false, features = ["runtime-tokio", "sqlite"] }
crossterm = "0.28"
ratatui = "0.29"
walkdir = "2"
filetime = "0.2"
