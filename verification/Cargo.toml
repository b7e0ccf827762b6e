[package]
name = "escalon_jobs"
version = "0.1.0"
edition = "2021"
publish = false

[dependencies]
async-trait = "*"
chrono = "*"
escalon = "*"
tokio = { version = "*", features = ["full"] }
tokio-cron-scheduler = "*"
uuid = "*"
