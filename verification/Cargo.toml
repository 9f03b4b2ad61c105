[package]
name = "ignis_core"
version = "0.1.0"
edition = "2021"
publish = false

[dependencies]
anyhow = "*"
atty = "*"
clap = { version = "*", features = ["derive"] }
once_cell = "*"
regex = "*"
serde = { version = "*", features = ["derive"] }
shellexpand = "*"
tokio = { version = "*", features = ["full"] }
toml = "*"
