[package]
name = "item_tracker"
version = "0.1.0"
edition = "2021"
publish = false

[dependencies]
actix-web = "4"
futures-util = "0.3"
serde = { version = "1", features = ["derive"] }
serde_json = "1"
sled = "0.34"
uuid = { version = "1", features = ["v4"] }
