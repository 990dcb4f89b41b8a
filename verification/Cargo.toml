[package]
name = "jrep"
version = "0.1.0"
edition = "2021"
publish = false

[dependencies]
bcrypt = "=0.19.3"
url = "=2.5.8"
uuid = { version = "=1.29.1", features = ["v4"] }
validator = "=0.21.0"
actix-web = { version = "=4.18.1", default-features = false, features = ["macros", "cookies"] }
serde = { version = "=1.0.229", features = ["derive"] }
serde_json = { version = "=1.0.154", features = ["preserve_order"] }
jsonwebtoken = "=9.3.1"
reqwest = { version = "=0.12.28", default-features = false, features = ["json", "rustls-tls"] }
sqlx = { version = "=0.8.6", default-features = false, features = ["postgres", "runtime-tokio", "uuid", "chrono"] }
tera = { version = "=1.20.1", default-features = false }
tracing = "=0.1.44"
tracing-subscriber = "=0.3.23"
dotenvy = "=0.15.7"
chrono = { version = "=0.4.45", default-features = false, features = ["clock", "serde"] }
