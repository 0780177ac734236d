[package]
name = "hyprquery"
version = "0.1.0"
edition = "2021"
publish = false

[dependencies]
clap = { version = "=4.6.7", features = ["derive"] }
glob = "=0.3.4"
hyprlang = "=0.5.0"
regex = "=1.13.1"
serde = { version = "=1.0.229", features = ["derive"] }
serde_json = "=1.0.154"
shellexpand = "=3.1.2"
