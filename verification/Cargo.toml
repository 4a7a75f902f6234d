[package]
name = "user_api"
version = "0.1.0"
edition = "2021"
publish = false

[dependencies]
validator = "=0.21.0"
actix-web = "=4.18.1"
sqlx = { version = "=0.9.0", default-features = false, features = ["postgres", "runtime-tokio"] }
serde = { version = "=1.0.229", features = ["derive"] }
thiserror = "=2.0.21"
utoipa = { version = "=6.0.0", features = ["actix_extras"] }
utoipa-swagger-ui = { version = "=10.0.2", features = ["actix-web", "vendored"] }
dotenv = "=0.15.0"
env_logger = "=0.11.11"
log = "=0.4.34"
