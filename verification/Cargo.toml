[package]
name = "stabilizer"
version = "0.1.0"
edition = "2021"
publish = false

[dependencies]
embedded-hal = { version = "=0.2.7", features = ["unproven"] }
fugit = "=0.3.9"
rtic-time = "=1.3.0"
