[package]
name = "raffle"
version = "0.1.0"
edition = "2021"
publish = false

[dependencies]
anchor-lang = "=0.28.0"
anchor-spl = { version = "=0.28.0", default-features = false, features = ["token"] }
