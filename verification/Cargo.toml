[package]
name = "bayou_interner"
version = "0.1.0"
edition = "2021"
publish = false

[dependencies]
hashbrown = "*"
rustc-hash = "*"
serde = { version = "*", features = ["derive"] }
