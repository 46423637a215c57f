[package]
name = "yt"
version = "0.1.0"
edition = "2021"
publish = false

[dependencies]
regex = "1"
serde = { version = "1", features = ["derive"] }
serde_json = "1"
reqwest = { version = "0.11", default-features = false, features = ["blocking", "rustls-tls"] }
tui = { version = "0.19", default-features = false, features = ["termion"] }
termion = "1.5"
ueberzug = "*"
log = "0.4"
env_logger = "0.10"
rayon = "1"
fs_extra = "1"
toml = "0.5"
