[package]
name = "autonomix"
version = "0.2.0"
edition = "2021"
publish = false

[dependencies]
anyhow = "1"
chrono = { version = "0.4", features = ["serde"] }
cstr = "*"
dirs = "*"
env_logger = "*"
gtk4 = "*"
libadwaita = "*"
log = "0.4"
once_cell = "1"
qmetaobject = "*"
reqwest = { version = "0.12", default-features = false, features = ["json", "rustls-tls"] }
rusqlite = { version = "*", features = ["bundled"] }
semver = "1"
serde = { version = "1", features = ["derive"] }
serde_json = "1"
tokio = { version = "1", features = ["full"] }
