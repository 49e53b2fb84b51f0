[package]
name = "yas_scanner_genshin"
version = "0.1.0"
edition = "2021"
publish = false

[dependencies]
anyhow = "*"
clap = { version = "*", features = ["derive"] }
edit-distance = "*"
flate2 = "*"
image = { version = "*", default-features = false, features = ["png"] }
log = "*"
regex = "*"
reqwest = { version = "*", default-features = false, features = ["blocking", "rustls-tls"] }
serde = { version = "*", features = ["derive"] }
serde_json = "*"
strum_macros = "*"
