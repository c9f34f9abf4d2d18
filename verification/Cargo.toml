[package]
name = "faketty"
version = "1.0.0"
edition = "2021"
publish = false

[dependencies]
clap = { version = "4", default-features = false, features = ["std", "help", "usage", "error-context"] }
nix = { version = "0.29", default-features = false, features = ["fs", "process", "term"] }
