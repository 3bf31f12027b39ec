[package]
name = "todo_pipeline"
version = "0.1.0"
edition = "2021"
publish = false

[dependencies]
uuid = { version = "1", features = ["v4", "serde"] }
serde_json = "1"
serde = { version = "1", features = ["derive"] }
anyhow = "1"
dotenv = "0.15"
futures-util = "0.3"
tokio = { version = "1", features = ["rt-multi-thread", "macros"] }
actix-web = { version = "4", default-features = false, features = ["macros"] }
actix-cors = "0.7"
lapin = { version = "2", default-features = false }
sqlx = { version = "0.8", default-features = false, features = ["runtime-tokio", "postgres", "uuid"] }
