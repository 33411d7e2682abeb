[package]
name = "conduit"
version = "0.1.0"
edition = "2021"
publish = false

[dependencies]
actix-web = "*"
chrono = "*"
serde = { version = "*", features = ["derive"] }
serde_json = "*"
