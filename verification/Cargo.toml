[package]
name = "radmap"
version = "0.1.0"
edition = "2021"
publish = false

[dependencies]
clap = { version = "=4.6.7", features = ["derive"] }
indicatif = "=0.17.11"
rayon = "=1.12.0"
strum = "=0.26.3"
