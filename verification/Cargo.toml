[package]
name = "pokedraft"
version = "0.1.0"
edition = "2021"
publish = false

[dependencies]
uuid = { version = "1", features = ["v4"] }
serde = { version = "1", features = ["derive"] }
rocket = { version = "0.5", features = ["json"] }
