[package]
name = "wepo"
version = "0.1.0"
edition = "2021"
publish = false

[dependencies]
sha256 = "*"
rand = "0.8"
rs-snowflake = "*"
serde = { version = "1", features = ["derive"] }
chrono = "0.4"
jsonwebtoken = "*"
futures = "0.3"
actix = "*"
actix-web = "4"
actix-redis = "*"
deadpool-postgres = "*"
tokio-postgres = { version = "0.7", features = ["with-chrono-0_4"] }
