[package]
name = "portal_locate"
version = "0.1.0"
edition = "2021"
publish = false

[dependencies]
ashpd = { version = "=0.13.13", features = ["location"] }
futures = "=0.3.34"
