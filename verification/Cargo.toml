[package]
name = "nflreadrs"
version = "0.1.0"
edition = "2021"
publish = false

[dependencies]
url = "2"
chrono = "0.4"
chrono-tz = "*"
uuid = { version = "1", features = ["v4"] }
reqwest = { version = "*", default-features = false, features = ["blocking", "rustls-tls"] }
