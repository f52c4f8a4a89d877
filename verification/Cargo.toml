[package]
name = "descdeps"
version = "0.1.0"
edition = "2021"
publish = false

[dependencies]
serde_json = "1"
clap = "2"
log = "0.4"
log4rs = "1"
prettytable-rs = "0.10"
rayon = "1"
reqwest = { version = "0.12", default-features = false, features = ["blocking"] }
