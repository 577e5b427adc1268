[package]
name = "botm"
version = "0.1.0"
edition = "2021"
publish = false

[dependencies]
chrono = "0.4"
serde = { version = "1", features = ["derive"] }
serde_json = "1"
tokio = { version = "1", features = ["rt-multi-thread", "macros"] }
reqwest = { version = "*", default-features = false, features = ["json", "rustls-tls"] }
oauth2 = { version = "*", default-features = false }
sqlx = { version = "*", default-features = false, features = ["runtime-tokio", "tls-rustls", "postgres"] }
url = "2"
dotenvy = "*"
