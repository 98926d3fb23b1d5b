[package]
name = "repo_status"
version = "0.1.0"
edition = "2021"
publish = false

[dependencies]
git2 = { version = "*", default-features = false }
serde = "*"
serde_derive = "*"
structopt = "*"
toml = "*"
