[package]
name = "polyfjord3d"
version = "0.1.0"
edition = "2021"
publish = false

[dependencies]
anyhow = "1"
clap = { version = "4", features = ["derive"] }
dirs = "5"
indicatif = "0.17"
num_cpus = "1"
reqwest = { version = "0.12", default-features = false, features = ["blocking", "json", "rustls-tls"] }
serde = { version = "1", features = ["derive"] }
which = "6"
winapi = { version = "0.3", features = ["winuser"] }
winreg = "0.52"
zip = { version = "2", default-features = false, features = ["deflate"] }
