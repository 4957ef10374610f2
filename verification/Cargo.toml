[package]
name = "undetected_chromedriver"
version = "0.1.0"
edition = "2021"
publish = false

[dependencies]
rand = "0.8"
reqwest = { version = "*", default-features = false, features = ["rustls-tls"] }
thirtyfour = "*"
zip = "*"
