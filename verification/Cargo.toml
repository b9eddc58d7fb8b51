[package]
name = "jot"
version = "0.1.0"
edition = "2021"
publish = false

[dependencies]
anyhow = "=1.0.104"
chrono = "=0.4.45"
clap = { version = "=4.6.7", features = ["derive"] }
dirs = "=7.0.0"
headless_chrome = { version = "=1.0.22", features = ["offline"] }
markdown = "=1.0.0"
pulldown-cmark = "=0.13.4"
resolve-path = "=0.1.0"
tempfile = "=3.27.0"
toml = "=1.1.7"
