[package]
name = "session_auth"
version = "0.1.0"
edition = "2021"
publish = false

[dependencies]
jwt = "=0.16.0"
hmac = "=0.12.1"
sha2 = "=0.10.9"
uuid = { version = "=1.27.0", features = ["v4"] }
bcrypt = "=0.15.1"
rand = "=0.8.8"
anyhow = "=1.0.104"
async-std = { version = "=1.13.2", features = ["attributes"] }
chrono = "=0.4.45"
clap = "=2.34.0"
dotenv = "=0.15.0"
juniper = { version = "=0.16.2", features = ["chrono", "uuid", "schema-language"] }
lazy_static = "=1.5.1"
lettre = { version = "=0.11.23", default-features = false, features = ["smtp-transport", "builder", "rustls-tls", "pool"] }
redis = { version = "=0.25.5", features = ["async-std-comp", "connection-manager"] }
serde = { version = "=1.0.229", features = ["derive"] }
sqlx = { version = "=0.7.4", features = ["runtime-async-std", "tls-rustls", "postgres", "uuid", "chrono"] }
tide = "=0.16.0"
