[package]
name = "dev_environment_launcher"
version = "0.1.0"
edition = "2021"
publish = false

[dependencies]
config = { version = "0.14", default-features = false, features = ["toml"] }
dialoguer = "0.11"
serde = { version = "1", features = ["derive"] }
serde_derive = "1"
structopt = "0.3"
structopt-derive = "0.4"
toml = "0.8"
