[package]
name = "bazuka"
version = "0.1.0"
edition = "2021"
publish = false

[dependencies]
colored = "2"
ed25519-dalek = "1"
hex = "0.4"
rayon = "1"
serde = { version = "1", features = ["derive"] }
thiserror = "1"
