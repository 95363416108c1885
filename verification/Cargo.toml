[package]
name = "user_management"
version = "0.1.0"
edition = "2021"
publish = false

[dependencies]
rust-argon2 = "1"
rand = "0.8"
unicode-normalization = "0.1"
email_address = "0.2"
uuid = { version = "1", features = ["v4"] }
time = "0.3"
mime = "0.3"
image = { version = "0.24", default-features = false, features = ["png", "jpeg"] }
rusty_ulid = "1"
axum = { version = "0.5", features = ["headers", "multipart"] }
tokio = { version = "1", features = ["macros", "rt-multi-thread", "sync"] }
serde = { version = "1", features = ["derive"] }
serde_json = "1"
serde_with = { version = "1", features = ["base64"] }
jsonwebtoken = "8"
sqlx = { version = "0.6", features = ["runtime-tokio-rustls", "postgres", "uuid", "time"] }
lettre = { version = "0.10", default-features = false, features = ["builder", "smtp-transport", "rustls-tls"] }
reqwest = { version = "0.11", default-features = false, features = ["json", "rustls-tls"] }
csv = "1"
calamine = "0.19"
once_cell = "1"
dapr = "0.10"
