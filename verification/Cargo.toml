[package]
name = "pop-parachains"
version = "0.1.0"
edition = "2021"
publish = false

[dependencies]
anyhow = "1"
clap = { version = "4", features = ["derive"] }
cliclack = "*"
git2 = "*"
git2_credentials = "*"
regex = "1"
reqwest = { version = "*", features = ["json"] }
serde = { version = "1", features = ["derive"] }
serde_json = "1"
strum = "*"
strum_macros = "*"
toml_edit = "*"
url = "2"
