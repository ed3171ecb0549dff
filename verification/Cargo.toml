[package]
name = "haggl"
version = "0.1.0"
edition = "2021"
publish = false

[dependencies]
actix = "*"
awc = "*"
futures = "*"
clap = { version = "*", features = ["derive"] }
