[package]
name = "surreal_s3"
version = "0.1.0"
edition = "2021"
publish = false

[dependencies]
anyhow = "1"
aws-config = { version = "1", default-features = false }
aws-sdk-s3 = { version = "1", default-features = false, features = ["rt-tokio"] }
aws-smithy-runtime-api = { version = "1", features = ["client", "http-1x"] }
aws-smithy-types = { version = "1", features = ["http-body-1-x"] }
bytes = "1"
chrono = { version = "0.4", default-features = false, features = ["std", "clock", "alloc"] }
hickory-resolver = "*"
http = "1"
http-body-util = "0.1"
hyper = { version = "1", features = ["client", "http1", "http2"] }
hyper-util = { version = "0.1", features = ["tokio"] }
rustls = { version = "0.23", default-features = false, features = ["ring", "std", "tls12", "logging"] }
surrealdb-types = "*"
surrealism = "*"
tokio = { version = "1", features = ["full"] }
tokio-rustls = { version = "0.26", default-features = false, features = ["ring", "tls12", "logging"] }
tokio-util = "0.7"
webpki-roots = "*"
