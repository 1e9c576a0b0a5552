[package]
name = "ohboi_parse"
version = "0.1.0"
edition = "2021"
publish = false

[dependencies]
regex = "1"
Inflector = "0.11"
serde = { version = "1", features = ["derive"] }
serde_json = "1"
scraper = "0.12"
reqwest = { version = "0.11", default-features = false, features = ["rustls-tls"] }
tokio = { version = "1", features = ["rt-multi-thread", "macros"] }
futures = "0.3"
lapin = { version = "1", default-features = false, features = ["rustls"] }
diesel = { version = "1.4", features = ["postgres", "r2d2", "chrono", "numeric"] }
bigdecimal = "0.1"
chrono = "0.4"
crossbeam = "0.8"
log = "0.4"
rusoto_core = { version = "0.47", default-features = false, features = ["rustls"] }
rusoto_s3 = { version = "0.47", default-features = false, features = ["rustls"] }
