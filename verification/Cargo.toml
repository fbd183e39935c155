[package]
name = "tera_inference"
version = "0.1.0"
edition = "2021"
publish = false

[dependencies]
candle-core = "*"
candle-transformers = "*"
tokenizers = { version = "*", default-features = false, features = ["onig"] }
chrono = { version = "*", default-features = false, features = ["std", "now"] }
serde_json = "*"
