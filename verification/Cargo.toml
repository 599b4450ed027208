[package]
name = "macro_manager"
version = "0.1.0"
edition = "2021"
publish = false

[dependencies]
toml = "=0.8.23"
serde_json = "=1.0.154"
rustix = { version = "=0.38.44", features = ["process"] }
xdg = "=2.5.2"
procfs = "=0.16.0"
dbus = { version = "=0.9.12", features = ["vendored"] }
libxdo-sys = "=0.11.0"
clap = { version = "=4.6.7", features = ["derive"] }
