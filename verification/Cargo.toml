[package]
name = "vpc_inventory"
version = "0.1.0"
edition = "2021"
publish = false

[dependencies]
serde = { version = "*", features = ["derive"] }
serde_json = "*"
umya-spreadsheet = "*"
