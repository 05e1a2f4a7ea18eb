[package]
name = "cert_monitor"
version = "0.1.0"
edition = "2021"
publish = false

[dependencies]
x509-certificate = "*"
chrono = "*"
rustls = "*"
webpki-roots = "*"
serde = { version = "*", features = ["derive"] }
thiserror = "*"
tokio = { version = "*", features = ["macros", "rt"] }
lambda_runtime = "*"
url = "*"
aws-config = "*"
aws-sdk-s3 = "*"
