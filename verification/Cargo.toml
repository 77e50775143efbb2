[package]
name = "osv"
version = "0.1.0"
edition = "2021"
publish = false

[dependencies]
chrono = "*"
url = "*"
surf = { version = "*", default-features = false, features = ["h1-client-rustls"] }
