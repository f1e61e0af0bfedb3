[package]
name = "godot_wry"
version = "0.1.0"
edition = "2021"
publish = false

[dependencies]
godot = "0.2"
gtk = "0.18"
http = "=1.5.0"
serde_json = "=1.0.154"
uuid = { version = "=1.29.0", features = ["v4"] }
wry = "0.50"
