[package]
name = "whos"
version = "0.1.0"
edition = "2021"
publish = false

[dependencies]
lazy-regex = "3"
punycode = "0.4"
chrono = { version = "0.4", default-features = false, features = ["std"] }
thiserror = "1"
