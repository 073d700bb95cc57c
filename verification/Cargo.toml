[package]
name = "mrpack_downloader"
version = "0.1.0"
edition = "2021"
publish = false

[dependencies]
clap = "*"
rayon = "*"
reqwest = { version = "*", default-features = false, features = ["blocking"] }
serde_json = "*"
