[package]
name = "openai_rs"
version = "0.1.0"
edition = "2021"
publish = false

[dependencies]
lopdf = "0.31"
serde = { version = "1", features = ["derive"] }
serde_json = "1"
reqwest = { version = "0.11", default-features = false, features = ["json", "rustls-tls"] }
sea-orm = { version = "0.12", default-features = false, features = ["macros", "with-json", "with-chrono", "sqlx-postgres", "runtime-tokio-rustls"] }
dotenvy = "0.15"
chrono = "0.4"
