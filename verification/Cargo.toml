[package]
name = "warn_scraper"
version = "0.1.0"
edition = "2021"
publish = false

[dependencies]
chrono = "0.4"
scraper = "*"
reqwest = { version = "0.12", default-features = false, features = ["blocking"] }
office = "*"
clap = { version = "4", features = ["derive"] }
