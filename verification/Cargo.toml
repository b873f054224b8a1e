[package]
name = "ambush_coordinator"
version = "0.1.0"
edition = "2021"
publish = false

[dependencies]
rand = "0.8"
tauri = { version = "2", default-features = false, features = ["wry"] }
