[package]
name = "text2tabletop"
version = "0.1.0"
edition = "2021"
publish = false

[dependencies]
pulldown-cmark = "=0.13.4"
seed = "=0.9.2"
serde = { version = "=1.0.229", features = ["derive"] }
