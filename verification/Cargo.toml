[package]
name = "napture_lua"
version = "0.1.0"
edition = "2021"
publish = false

[dependencies]
gtk4 = "0.7"
lazy_static = "1"
mlua = { version = "0.9", features = ["lua54", "vendored", "async", "serialize", "unstable"] }
reqwest = { version = "0.11", features = ["blocking", "json"] }
serde_json = "1"
