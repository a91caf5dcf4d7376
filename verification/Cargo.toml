[package]
name = "migrant_lib"
version = "0.1.0"
edition = "2021"
publish = false

[dependencies]
chrono = "0.4"
percent-encoding = "1"
url = "1"
rusqlite = "*"
toml = "*"
serde = { version = "1", features = ["derive"] }
walkdir = "2"
clap = "2"
dotenv = "0.15"
rpassword = "*"
