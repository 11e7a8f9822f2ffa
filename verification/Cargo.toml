[package]
name = "class_counter"
version = "0.1.0"
edition = "2021"
publish = false

[dependencies]
chrono = "*"
csv = "*"
inquire = { version = "*", features = ["date"] }
serde = { version = "*", features = ["derive"] }
serde_json = "*"
