[package]
name = "media_import"
version = "0.1.0"
edition = "2021"
publish = false

[dependencies]
chrono = { version = "0.4", default-features = false, features = ["std"] }
docopt = "*"
failure = "0.1"
failure_derive = "0.1"
indicatif = "*"
mime = "0.3"
serde = { version = "1", features = ["derive"] }
serde_derive = "1"
serde_json = "1"
tree_magic = "*"
walkdir = "2"
xdg = "*"
