[package]
name = "todo_auth"
version = "0.1.0"
edition = "2021"
publish = false

[dependencies]
actix-files = "0.6"
actix-web = { version = "4", default-features = false, features = ["macros", "cookies"] }
actix-web-httpauth = "0.8"
argonautica = "0.2"
askama = "0.12"
async-trait = "0.1"
chrono = { version = "0.4", default-features = false, features = ["clock", "std"] }
dotenv = "0.15"
futures-util = "0.3"
hmac = "0.12"
jwt = "0.16"
serde = { version = "1", features = ["derive"] }
sha2 = "0.10"
sqlx = { version = "0.8", default-features = false, features = ["runtime-tokio", "postgres", "migrate"] }
thiserror = "1"
tokio = { version = "1", features = ["sync", "rt", "macros"] }
