[package]
name = "query_core"
version = "0.1.0"
edition = "2021"
publish = false

[dependencies]
bcrypt = "*"
chrono = { version = "*", features = ["serde"] }
uuid = { version = "*", features = ["v4", "serde"] }
serde = { version = "*", features = ["derive"] }
serde_json = "*"
sqlx = { version = "*", default-features = false, features = ["postgres", "runtime-tokio", "chrono", "uuid", "json"] }
tokio = { version = "*", features = ["macros", "rt-multi-thread"] }
actix-web = "*"
actix-cors = "*"
jsonwebtoken = "*"
validator = { version = "*", features = ["derive"] }
futures = "*"
dotenv = "*"
tracing = "*"
tracing-subscriber = "*"
lazy_static = "*"
thiserror = "*"
anyhow = "*"
utoipa = { version = "*", features = ["actix_extras", "uuid", "chrono"] }
