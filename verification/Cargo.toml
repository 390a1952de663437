[package]
name = "auth_service"
version = "0.1.0"
edition = "2021"
publish = false

[dependencies]
argon2 = { version = "0.5", features = ["std"] }
jsonwebtoken = "9"
uuid = { version = "1", features = ["v4", "serde"] }
chrono = { version = "0.4", features = ["serde"] }
validator = { version = "*", features = ["derive"] }
serde = { version = "1", features = ["derive"] }
serde_json = { version = "1", features = ["preserve_order"] }
actix-web = "4"
sea-orm = { version = "1", default-features = false, features = ["macros", "with-uuid", "with-chrono", "with-json"] }
sea-orm-migration = { version = "1", default-features = false }
dotenv = "0.15"
futures-util = "0.3"
async-trait = "0.1"
