[package]
name = "mrbeam"
version = "0.1.0"
edition = "2021"
publish = false

[dependencies]
sha256 = "*"
uuid = "*"
actix-web = "*"
actix-multipart = "*"
tokio = { version = "*", features = ["macros", "rt-multi-thread", "time"] }
reqwest = { version = "*", default-features = false, features = ["multipart", "json"] }
rust-s3 = "*"
aws-region = "*"
serde = { version = "*", features = ["derive"] }
serde_json = "*"
sqlx = { version = "*", default-features = false, features = ["runtime-tokio", "postgres", "uuid", "json", "migrate"] }
dotenvy = "*"
tracing = "*"
tracing-subscriber = { version = "*", features = ["env-filter"] }
tracing-actix-web = "*"
tracing-bunyan-formatter = "*"
