[package]
name = "chat_gateway"
version = "0.1.0"
edition = "2021"
publish = false

[dependencies]
actix-cors = "0.7"
actix-multipart = { version = "0.7", default-features = false, features = ["tempfile", "derive"] }
actix-web = { version = "4", default-features = false, features = ["macros", "cookies"] }
actix-ws = "0.3"
argon2 = "0.5"
chrono = { version = "0.4", default-features = false, features = ["std", "clock", "serde"] }
env_logger = { version = "0.11", default-features = false }
futures-util = { version = "0.3", default-features = false, features = ["std"] }
hmac = "0.12"
jwt = "0.16"
log = "0.4"
sanitize-filename = "*"
serde = { version = "1", features = ["derive"] }
serde_json = "1"
sha2 = "0.10"
sqlx = { version = "0.8", default-features = false, features = ["postgres", "runtime-tokio", "chrono", "derive"] }
tokio = { version = "1", default-features = false, features = ["sync", "macros", "time", "rt"] }
