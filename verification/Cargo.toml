[package]
name = "steam_bridge"
version = "0.1.0"
edition = "2021"
publish = false

[dependencies]
napi = { version = "=2.16.17", default-features = false, features = ["napi6", "dyn-symbols"] }
napi-derive = "=2.16.13"
steamworks = "0.12"
