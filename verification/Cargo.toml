[package]
name = "goobie_mysql"
version = "0.1.0"
edition = "2021"
publish = false

[dependencies]
sqlx = { version = "0.8", default-features = false, features = ["mysql", "runtime-tokio", "chrono", "rust_decimal"] }
tokio = { version = "1", default-features = false, features = ["rt", "rt-multi-thread", "sync", "time", "macros"] }
anyhow = "1"
