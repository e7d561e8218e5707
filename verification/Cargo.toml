[package]
name = "epp_client"
version = "0.1.0"
edition = "2021"
publish = false

[dependencies]
serde = { version = "*", features = ["derive"] }
toml = "*"
rustls = "*"
rustls-pemfile = "*"
