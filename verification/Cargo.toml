[package]
name = "zstd_seekable_s3"
version = "0.1.0"
edition = "2021"
publish = false

[dependencies]
zstd-seekable = "0.1"
rusoto_core = { version = "0.48", default-features = false, features = ["rustls"] }
rusoto_s3 = { version = "0.48", default-features = false, features = ["rustls"] }
tokio = { version = "1", features = ["rt", "time", "io-util"] }
futures = "0.3"
bytes = "1"
parking_lot = "0.12"
pin-project-lite = "0.2"

[dev-dependencies]
rusoto_mock = { version = "0.48", default-features = false, features = ["rustls"] }
