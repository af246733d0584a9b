[package]
name = "grade_service"
version = "0.1.0"
edition = "2021"
publish = false

[dependencies]
dashmap = "6"
actix-web = "4"
serde = { version = "1", features = ["derive"] }
