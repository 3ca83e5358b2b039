[package]
name = "enyay_oj"
version = "0.1.0"
edition = "2021"
publish = false

[dependencies]
axum = "0.8"
chrono = { version = "0.4", features = ["serde"] }
dotenvy = "0.15"
rust-s3 = { version = "0.35", default-features = false, features = ["fail-on-err", "tags", "tokio-rustls-tls"] }
serde = { version = "1", features = ["derive"] }
sqlx = { version = "0.8", default-features = false, features = ["mysql", "runtime-tokio", "chrono", "derive"] }
tokio = { version = "1", features = ["full"] }
