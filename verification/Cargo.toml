[package]
name = "lintd_taskops"
version = "0.1.0"
edition = "2021"
publish = false

[dependencies]
anyhow = "1"
clap = { version = "4", features = ["derive"] }
duct = "0.13"
toml = "0.8"
xtaskops = "*"
