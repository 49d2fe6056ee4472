[package]
name = "avr_calculator"
version = "0.1.0"
edition = "2021"
publish = false

[dependencies]
itertools = "0.12"
uuid = { version = "1", features = ["v4"] }
serde = { version = "1", features = ["derive"] }
serde_json = "1"
egui = { version = "0.27", default-features = false }
