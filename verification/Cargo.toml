[package]
name = "postboard"
version = "0.1.0"
edition = "2021"
publish = false

[dependencies]
actix-web = "4"
chrono = { version = "0.4", features = ["serde"] }
config = { version = "*", default-features = false }
deadpool-postgres = { version = "*", features = ["serde"] }
dotenv = "0.15"
serde = { version = "1", features = ["derive"] }
tokio-pg-mapper = "0.2"
tokio-pg-mapper-derive = "0.2"
tokio-postgres = { version = "0.7", features = ["with-chrono-0_4"] }
