[package]
name = "z2pgh"
version = "0.1.0"
edition = "2021"
publish = false

[dependencies]
rand = "=0.8.8"
validator = "=0.16.1"
unicode-segmentation = "=1.13.3"
tide = "=0.16.0"
tide-tracing = "=0.1.1"
async-std = { version = "=1.13.2", features = ["attributes"] }
sqlx = { version = "=0.6.3", default-features = false, features = ["runtime-async-std-rustls", "postgres", "uuid", "chrono"] }
serde = { version = "=1.0.229", features = ["derive"] }
uuid = { version = "=1.29.0", features = ["v4"] }
chrono = "=0.4.45"
anyhow = "=1.0.104"
thiserror = "=1.0.69"
tracing = "=0.1.44"
surf = { version = "2.3", default-features = false, features = ["h1-client-rustls"] }
