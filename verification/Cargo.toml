[package]
name = "hubakc"
version = "0.1.0"
edition = "2021"
publish = false

[dependencies]
anyhow = "1"
itertools = "*"
minreq = { version = "2", features = ["https"] }
serde = { version = "1", features = ["derive"] }
toml = "*"
