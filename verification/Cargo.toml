[package]
name = "engine_core"
version = "0.1.0"
edition = "2021"
publish = false

[dependencies]
image = { version = "0.24", default-features = false, features = ["png", "jpeg", "hdr"] }
tobj = "4"

[dev-dependencies]
tar = "0.4"
