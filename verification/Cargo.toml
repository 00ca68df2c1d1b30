[package]
name = "linkshare"
version = "0.1.0"
edition = "2021"
publish = false

[dependencies]
actix = "0.13"
actix-identity = "0.5"
actix-session = { version = "0.7", features = ["cookie-session"] }
actix-web = "4"
actix-web-lab = "0.19"
anyhow = "1"
base64 = "0.21"
chrono = "0.4"
color-eyre = "0.6"
config = "0.13"
data-encoding = "2"
diesel = { version = "2", features = ["postgres", "r2d2", "uuid"] }
dotenv = "0.15"
eyre = "0.6"
futures = "0.3"
mongodb = "2"
ring = "0.17"
serde = { version = "1", features = ["derive"] }
serde_json = "1"
tracing = "0.1"
tracing-subscriber = { version = "0.3", features = ["env-filter"] }
utoipa = { version = "3", features = ["actix_extras"] }
utoipa-swagger-ui = { version = "3", features = ["actix-web"] }
uuid = { version = "1", features = ["v4", "serde"] }
validator = { version = "0.16", features = ["derive"] }
