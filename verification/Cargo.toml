[package]
name = "rustracer_core"
version = "0.1.0"
edition = "2021"
publish = false

[dependencies]
jpeg-encoder = "0.6"
zune-jpeg = "0.4"
rayon = "1"
serde = { version = "1", features = ["derive"] }
serde_json = "1"
wavefront = "*"
tide = "0.16"
async-std = { version = "1", features = ["attributes"] }
femme = "2"
