[package]
name = "bareretro"
version = "0.1.0"
edition = "2021"
publish = false

[dependencies]
rand = "0.8"
actix-web = "4"
serde = { version = "1", features = ["derive"] }
tokio-postgres = "0.7"
deadpool-postgres = "*"
dotenv = "0.15"
