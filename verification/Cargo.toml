[package]
name = "printer"
version = "0.1.0"
edition = "2021"
publish = false

[dependencies]
anyhow = "1"
anyhow-source-location = "*"
console = "*"
indicatif = "*"
owo-colors = "*"
serde = { version = "1", features = ["derive"] }
serde_json = "1"
term_size = "*"
