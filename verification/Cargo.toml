[package]
name = "s3_endpoint"
version = "0.1.0"
edition = "2021"
publish = false

[dependencies]
mountpoint-s3-crt = "*"
thiserror = "1"
tracing = "0.1"
