[package]
name = "paceman"
version = "0.1.0"
edition = "2021"
publish = false

[dependencies]
reqwest = { version = "*", default-features = false, features = ["blocking"] }
chrono = { version = "*", default-features = false, features = ["clock"] }
