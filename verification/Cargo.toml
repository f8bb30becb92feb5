[package]
name = "builtins"
version = "0.1.0"
edition = "2021"
publish = false

[dependencies]
anyhow = "1"
lexopt = "0.3"
reqwest = { version = "0.12", features = ["blocking"] }
scraper = "*"
xshell = "0.2"
