[package]
name = "football_match_parser"
version = "0.1.0"
edition = "2021"
publish = false

[dependencies]
anyhow = "1"
chrono = { version = "0.4", default-features = false, features = ["std"] }
clap = { version = "4", default-features = false, features = ["std", "derive", "help", "usage", "error-context"] }
thiserror = "2"
