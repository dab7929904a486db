[package]
name = "netparse"
version = "0.1.0"
edition = "2021"
publish = false

[dependencies]
nom = "7"
pnet = "*"
serde = { version = "1", features = ["derive"] }
custom_debug_derive = "*"
