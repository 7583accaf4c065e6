[package]
name = "image_gateway"
version = "0.1.0"
edition = "2021"
publish = false

[dependencies]
aws-config = "=1.12.0"
aws-sdk-s3 = "=1.152.0"
aws-types = "~1.6"
axum = { version = "=0.7.9", features = ["multipart"] }
chrono = "=0.4.45"
dotenv = "=0.15.0"
regex = "=1.13.1"
serde = { version = "=1.0.229", features = ["derive"] }
tokio = { version = "=1.54.1", features = ["full"] }
tower-http = { version = "=0.5.2", features = ["cors"] }
tracing = "=0.1.44"
tracing-subscriber = "=0.3.23"
