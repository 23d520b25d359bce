[package]
name = "todo_service"
version = "0.1.0"
edition = "2021"
publish = false

[dependencies]
actix-web = { version = "=4.18.1", default-features = false, features = ["macros"] }
async-trait = "=0.1.92"
chrono = { version = "=0.4.45", features = ["serde"] }
dotenv = "=0.15.0"
sea-orm = { version = "=0.10.7", default-features = false, features = ["macros", "with-chrono", "sqlx-postgres", "runtime-actix-native-tls"] }
sea-orm-migration = { version = "=0.10.7", default-features = false, features = ["sqlx-postgres", "runtime-actix-native-tls"] }
secrecy = { version = "=0.8.0", features = ["serde"] }
serde = { version = "=1.0.229", features = ["derive"] }
tokio = { version = "=1.54.1", features = ["macros", "rt-multi-thread"] }
tracing = "=0.1.44"
tracing-actix-web = { version = "=0.7.25", default-features = false }
tracing-appender = "=0.2.5"
tracing-subscriber = { version = "=0.3.23", features = ["env-filter"] }
validator = "=0.16.1"
