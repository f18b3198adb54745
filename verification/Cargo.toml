[package]
name = "sora_watermark_remov"
version = "0.1.0"
edition = "2021"
publish = false

[dependencies]
serde_json = "=1.0.154"
serde_urlencoded = "=0.7.1"
hmac = "=0.12.1"
sha2 = "=0.10.9"
hex = "=0.4.3"
serde = { version = "=1.0.229", features = ["derive"] }
chrono = { version = "=0.4.45", features = ["serde"] }
actix = "=0.13.5"
actix-web = { version = "=4.18.1", default-features = false, features = ["macros", "ws"] }
actix-web-actors = "=4.3.1"
actix-multipart = { version = "=0.7.2", default-features = false }
sqlx = { version = "=0.8.6", default-features = false, features = ["runtime-tokio", "postgres", "chrono", "json", "migrate", "uuid"] }
reqwest = { version = "=0.12.28", default-features = false, features = ["json", "rustls-tls"] }
bcrypt = "=0.15.1"
jsonwebtoken = { version = "=9.3.1", default-features = false }
uuid = { version = "=1.29.0", features = ["v4"] }
lettre = { version = "=0.11.23", default-features = false, features = ["builder", "smtp-transport", "tokio1-rustls-tls"] }
lapin = { version = "=2.5.5", default-features = false, features = ["rustls-webpki-roots-certs"] }
dotenvy = "=0.15.7"
futures-util = "=0.3.34"
log = "=0.4.34"
utoipa = { version = "=4.2.3", features = ["actix_extras", "chrono"] }
