[package]
name = "disk_scanner"
version = "0.1.0"
edition = "2021"
publish = false

[dependencies]
chrono = "0.4"
walkdir = "2"
rfd = { version = "0.15", default-features = false, features = ["xdg-portal", "tokio"] }
open = "5"
