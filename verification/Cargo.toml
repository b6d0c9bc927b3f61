[package]
name = "presence"
version = "0.1.0"
edition = "2021"
publish = false

[dependencies]
actix = "=0.8.3"
actix-web = { version = "=1.0.9", default-features = false }
actix-web-actors = "=1.0.4"
chrono = "=0.4.19"
