[package]
name = "doctainr"
version = "0.1.0"
edition = "2021"
publish = false

[dependencies]
anyhow = "1"
bollard = "0.18"
dioxus = { version = "0.6", default-features = false, features = ["macro", "html", "signals", "hooks"] }
