[package]
name = "allgreen"
version = "0.1.0"
edition = "2021"
publish = false

[dependencies]
chrono = "*"
scraper = "*"
tokio = { version = "*", features = ["macros", "rt-multi-thread", "time"] }
reqwest = { version = "*", default-features = false, features = ["rustls-tls"] }
sqlx = { version = "*", default-features = false, features = ["runtime-tokio", "tls-rustls", "postgres", "chrono", "uuid"] }
futures = "*"
uuid = "*"
