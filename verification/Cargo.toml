[package]
name = "zeus"
version = "0.1.0"
edition = "2021"
publish = false

[dependencies]
toml = "*"
chrono = "0.4"
clap = { version = "4", features = ["cargo"] }
clap_complete = "4"
serde = { version = "1", features = ["derive"] }
serde_json = "1"
reqwest = { version = "*", default-features = false, features = ["blocking", "json", "rustls-tls"] }
colored = "*"
nix = { version = "*", features = ["fs"] }
anyhow = "1"
thiserror = "*"
channels = "*"
libloading = "*"
fs4 = { version = "*", features = ["sync"] }
