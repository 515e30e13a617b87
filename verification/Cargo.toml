[package]
name = "ri"
version = "0.1.0"
edition = "2021"
publish = false

[dependencies]
structopt = "0.3"
serde = { version = "1", features = ["derive"] }
serde_json = "1"
toml = "*"
requestty = "*"
clipboard = "*"
