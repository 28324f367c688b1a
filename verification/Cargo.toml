[package]
name = "autoclip"
version = "0.3.0"
edition = "2021"
publish = false

[dependencies]
arboard = { version = "*", default-features = false }
clap = "*"
dirs = "*"
libloading = "*"
reqwest = { version = "*", default-features = false, features = ["blocking"] }
serde = { version = "*", features = ["derive"] }
serde_yaml = "*"
thiserror = "*"
url = "*"
