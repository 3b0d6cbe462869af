[package]
name = "rusted_thunder"
version = "0.1.0"
edition = "2021"
publish = false

[dependencies]
tesla = "*"
gtk = "0.9"
gdk = "0.13"
gio = "0.9"
glib = "0.10"
serde = { version = "1", features = ["derive"] }
toml = "0.5"
dirs = "*"
chrono = "0.4"
env_logger = "*"
log = "0.4"
