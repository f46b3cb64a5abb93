[package]
name = "cordtap"
version = "0.1.0"
edition = "2021"
publish = false

[dependencies]
byte-slice-cast = "1"
dashmap = "5"
poise = { version = "0.6", default-features = false, features = ["cache"] }
serde = { version = "1", features = ["derive"] }
serde_json = "1"
serenity = { version = "0.12", default-features = false, features = ["cache", "client", "gateway", "http", "model", "rustls_backend"] }
songbird = { version = "0.4", features = ["receive"] }
tokio = { version = "1", features = ["macros", "rt-multi-thread"] }
