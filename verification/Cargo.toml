[package]
name = "calrelay"
version = "0.1.0"
edition = "2021"
publish = false

[dependencies]
uuid = { version = "*", features = ["v4"] }
actix-web = { version = "*", default-features = false, features = ["macros"] }
anyhow = "*"
reqwest = { version = "*", default-features = false }
serde = { version = "*", features = ["derive"] }
sqlx = { version = "*", default-features = false, features = ["sqlite", "runtime-tokio"] }
tokio = { version = "*", features = ["macros", "rt-multi-thread"] }
