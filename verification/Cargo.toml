[package]
name = "sample_scaffold"
version = "0.1.0"
edition = "2021"
publish = false

[dependencies]
anyhow = "*"
argh = "*"
cargo_metadata = "*"
inquire = "*"
serde_json = "*"
tempfile = "*"
toml_edit = "*"
