[package]
name = "ferrolite-app"
version = "0.1.2"
edition = "2021"
publish = false

[dependencies]
egui = { version = "0.29", default-features = false }
