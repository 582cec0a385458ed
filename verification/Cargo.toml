[package]
name = "convos"
version = "0.1.0"
edition = "2021"
publish = false

[dependencies]
rand = "=0.8.8"
sha2 = "=0.10.9"
serde = { version = "=1.0.229", features = ["derive"] }
serde_json = "=1.0.154"
tokio = { version = "=1.54.1", features = ["full"] }
sqlx = { version = "=0.6.3", default-features = false, features = ["postgres", "runtime-tokio-rustls"] }
