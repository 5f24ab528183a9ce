[package]
name = "event_projection"
version = "0.1.0"
edition = "2021"
publish = false

[dependencies]
dotenvy = "=0.15.7"
serde = { version = "=1.0.229", features = ["derive"] }
tokio = { version = "=1.53.2", default-features = false, features = ["macros", "rt-multi-thread"] }
