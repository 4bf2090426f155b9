[package]
name = "bigquery_storage"
version = "0.1.0"
edition = "2021"
publish = false

[dependencies]
prost = "0.13"
prost-types = "0.13"
tonic = { version = "0.12", features = ["tls"] }
tokio-stream = "0.1"
hyper-util = "0.1"
yup-oauth2 = "*"
