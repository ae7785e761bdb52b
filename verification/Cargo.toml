[package]
name = "slp_scout"
version = "0.1.0"
edition = "2021"
publish = false

[dependencies]
notify = "*"
peppi = "*"
reqwest = { version = "*", default-features = false, features = ["blocking", "rustls-tls"] }
scraper = "*"
