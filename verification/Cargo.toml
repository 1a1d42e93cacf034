[package]
name = "session_based_authentication"
version = "0.1.0"
edition = "2021"
publish = false

[dependencies]
actix-web = "=4.18.1"
actix-session = { version = "=0.7.2", features = ["cookie-session"] }
actix-web-flash-messages = { version = "=0.4.2", features = ["cookies"] }
anyhow = "=1.0.104"
chrono = { version = "=0.4.45", default-features = false, features = ["clock"] }
rand = { version = "=0.8.8", features = ["std_rng"] }
reqwest = { version = "=0.11.27", default-features = false, features = ["json", "rustls-tls"] }
secrecy = { version = "=0.8.0", features = ["serde"] }
serde = { version = "=1.0.229", features = ["derive"] }
sqlx = { version = "=0.6.3", default-features = false, features = ["runtime-actix-rustls", "postgres", "uuid", "chrono"] }
thiserror = "=1.0.69"
tokio = { version = "=1.54.1", features = ["macros", "rt-multi-thread"] }
tracing = "=0.1.44"
tracing-actix-web = "=0.6.2"
uuid = { version = "=1.29.0", features = ["v4", "serde"] }
unicode-segmentation = "=1.13.3"
validator = "=0.16.1"
