[package]
name = "todo_repository"
version = "0.1.0"
edition = "2021"
publish = false

[dependencies]
anyhow = "1"
axum = { version = "0.7", default-features = false }
serde = { version = "1", features = ["derive"] }
sqlx = { version = "0.7", default-features = false, features = ["postgres", "runtime-tokio", "macros"] }
thiserror = "1"
validator = { version = "0.16", features = ["derive"] }
