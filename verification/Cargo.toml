[package]
name = "gitea_webhooks"
version = "0.1.0"
edition = "2021"
publish = false

[dependencies]
url = "=2.5.8"
serde = { version = "=1.0.229", features = ["derive"] }
serde_json = "=1.0.151"
reqwest = { version = "=0.13.5", default-features = false, features = ["json"] }
slack-morphism = { version = "=2.29.0", features = ["hyper"] }
anyhow = "=1.0.104"
