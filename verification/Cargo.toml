[package]
name = "event_planner"
version = "0.1.0"
edition = "2021"
publish = false

[dependencies]
inquire = { version = "*", features = ["editor"] }
serde = { version = "*", features = ["derive"] }
serde_json = "*"
strum = { version = "*", features = ["derive"] }
