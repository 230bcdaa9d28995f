[package]
name = "collapse_find_obf"
version = "0.1.0"
edition = "2021"
publish = false

[dependencies]
moka = { version = "0.12", features = ["sync"] }
rayon = "1"
serde = { version = "1", features = ["derive"] }
serde_json = "1"
wildmatch = "2"
colored = "2"
