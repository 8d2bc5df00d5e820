[package]
name = "paldeck"
version = "0.1.0"
edition = "2021"
publish = false

[dependencies]
Inflector = "0.11"
simsearch = "0.2"
urlencoding = "2"
anyhow = "1"
dotenvy = "0.15"
env_logger = "0.11"
log = "0.4"
poise = "0.6"
reqwest = { version = "0.11", default-features = false, features = ["json", "rustls-tls"] }
serde = { version = "1", features = ["derive"] }
serde_derive = "1"
serenity = "0.12"
thiserror = "1"
tokio = { version = "1", features = ["macros", "rt-multi-thread"] }
