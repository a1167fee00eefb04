[package]
name = "arbitrage_monitor"
version = "0.1.0"
edition = "2021"
publish = false

[dependencies]
anyhow = "1"
chrono = { version = "0.4", default-features = false, features = ["now"] }
dotenv = "0.15"
ethers = { version = "2", default-features = false, features = ["abigen", "rustls"] }
tokio = { version = "1", features = ["rt-multi-thread", "time"] }
