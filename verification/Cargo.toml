[package]
name = "tdt"
version = "0.1.0"
edition = "2021"
publish = false

[dependencies]
chrono = "0.4"
clap = { version = "4", features = ["derive"] }
console = "*"
csv = "1"
dialoguer = "*"
miette = "*"
serde_json = "1"
serde_yml = "*"
tabled = "*"
walkdir = "2"
