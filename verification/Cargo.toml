[package]
name = "shortener"
version = "0.1.0"
edition = "2021"
publish = false

[dependencies]
nanoid = "*"
url = "*"
axum = "*"
serde = { version = "*", features = ["derive"] }
sqlx = { version = "*", features = ["postgres", "runtime-tokio"] }
tokio = { version = "*", features = ["macros", "rt-multi-thread"] }
