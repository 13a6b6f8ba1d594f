[package]
name = "zond"
version = "0.1.0"
edition = "2021"
publish = false

[dependencies]
atom_syndication = "=0.12.10"
chrono = "=0.4.45"
clap = "=4.6.7"
ron = "=0.12.2"
serde = { version = "=1.0.229", features = ["derive"] }
tinyrand = "=0.5.0"
tinyrand-std = "=0.5.0"
url = "=2.5.8"
walkdir = "=2.5.0"
xml-rs = "=1.0.0"
