[package]
name = "link_shortener"
version = "0.1.0"
edition = "2021"
publish = false

[dependencies]
url = "2"
base64 = "0.22"
rand = "0.8"
sha3 = "0.10"
serde = { version = "1", features = ["derive"] }
axum = "0.7"
tokio = { version = "1", features = ["macros", "rt-multi-thread", "time", "net"] }
sqlx = { version = "0.8", default-features = false, features = ["runtime-tokio", "postgres"] }
