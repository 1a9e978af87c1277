[package]
name = "userdb"
version = "0.1.0"
edition = "2021"
publish = false

[dependencies]
rusqlite = "*"
clap = { version = "*", features = ["derive"] }
anyhow = "*"
log = "*"
simplelog = "*"
