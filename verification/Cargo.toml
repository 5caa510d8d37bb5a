[package]
name = "ruuvi_core"
version = "0.1.0"
edition = "2021"
publish = false

[dependencies]
snow = "*"
heapless = "*"
tokio = { version = "*", features = ["rt-multi-thread", "net", "io-util", "time", "macros"] }
sqlx = { version = "*", default-features = false, features = ["runtime-tokio", "postgres", "chrono", "mac_address"] }
chrono = "*"
anyhow = "*"
tracing = "*"
tracing-subscriber = { version = "*", features = ["env-filter"] }
