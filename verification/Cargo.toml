[package]
name = "weather_alerts"
version = "0.1.0"
edition = "2021"
publish = false

[dependencies]
actix-files = "0.6"
actix-web = { version = "4", default-features = false, features = ["macros", "compress-gzip"] }
chrono = { version = "0.4", default-features = false, features = ["clock", "std"] }
clap = { version = "4", features = ["derive"] }
dotenv = "0.15"
env_logger = "0.11"
http = "1"
lettre = { version = "0.11", default-features = false, features = ["builder", "smtp-transport", "native-tls"] }
log = "0.4"
reqwest = { version = "0.12", default-features = false, features = ["json", "native-tls"] }
serde = { version = "1", features = ["derive"] }
serde_json = "1"
sqlx = { version = "0.8", default-features = false, features = ["runtime-tokio", "postgres", "uuid", "chrono"] }
tokio = { version = "1", features = ["rt-multi-thread", "macros", "time", "sync"] }
tokio-cron-scheduler = "*"
uuid = { version = "1", features = ["v4"] }
validator = "0.16"
