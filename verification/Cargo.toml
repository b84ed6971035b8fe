[package]
name = "finance_tracker"
version = "0.1.0"
edition = "2021"
publish = false

[dependencies]
actix-cors = "0.7"
actix-web = "4"
chrono = { version = "0.4", features = ["serde"] }
diesel = { version = "2", features = ["postgres", "r2d2", "uuid", "chrono"] }
diesel_migrations = "2"
dotenv = "0.15"
dotenvy = "0.15"
env_logger = "0.11"
log = "0.4"
r2d2 = "0.8"
rust_decimal = "1"
serde = { version = "1", features = ["derive"] }
utoipa = { version = "*", features = ["actix_extras", "uuid", "chrono"] }
utoipa-swagger-ui = { version = "*", features = ["actix-web", "vendored"] }
uuid = { version = "1", features = ["v4", "serde"] }
