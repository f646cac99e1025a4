[package]
name = "alpack"
version = "0.1.0"
edition = "2021"
publish = false

[dependencies]
flate2 = "*"
indicatif = "*"
pico-args = "*"
regex = "*"
scraper = "*"
serde = { version = "1", features = ["derive"] }
tar = "*"
toml = "*"
ureq = "*"
walkdir_minimal = "*"
which = "*"
