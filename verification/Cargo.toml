[package]
name = "user_crud"
version = "0.1.0"
edition = "2021"
publish = false

[dependencies]
validator = "*"
actix-web = { version = "4", default-features = false, features = ["macros"] }
serde = { version = "1", features = ["derive"] }
sqlx = { version = "0.8", default-features = false, features = ["runtime-tokio", "postgres"] }
dotenv = "0.15"
