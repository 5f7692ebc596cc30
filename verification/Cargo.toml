[package]
name = "pairscore"
version = "0.1.0"
edition = "2021"
publish = false

[dependencies]
block-aligner = { version = "*", features = ["simd_avx2"] }
reqwest = { version = "*", default-features = false, features = ["blocking", "json"] }
serde = { version = "*", features = ["derive"] }
serde_json = "*"
