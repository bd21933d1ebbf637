[package]
name = "chemion"
version = "0.1.0"
edition = "2021"
publish = false

[dependencies]
serde = { version = "=1.0.229", features = ["derive"] }
actix-web = "=4.15.0"
actix-files = "=0.7.0"
btleplug = "=0.4.4"

[dev-dependencies]
hex = "=0.4.3"
