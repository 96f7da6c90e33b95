[package]
name = "memelibre"
version = "0.1.0"
edition = "2021"
publish = false

[dependencies]
image = { version = "*", default-features = false, features = ["png", "gif", "jpeg", "webp", "bmp", "tiff"] }
webp = "*"
chrono = "*"
axum = { version = "*", features = ["multipart"] }
tokio = { version = "*", features = ["macros", "rt-multi-thread", "net"] }
sqlx = { version = "*", default-features = false, features = ["runtime-tokio", "postgres"] }
aws-sdk-s3 = "*"
aws-config = "*"
aws-credential-types = "*"
