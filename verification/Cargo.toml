[package]
name = "wlcskk"
version = "0.1.0"
edition = "2021"
publish = false

[dependencies]
clap = { version = "=3.2.25", features = ["derive"] }
cskk = "=1.0.1"
env_logger = "=0.9.3"
log = "=0.4.34"
mio = { version = "=0.8.11", features = ["os-ext", "os-poll"] }
serde = { version = "=1.0.229", features = ["derive"] }
signal-hook = "=0.3.18"
signal-hook-mio = { version = "=0.2.5", features = ["support-v0_8"] }
wayland-client = { version = "=0.29.5", features = ["dlopen"] }
wayland-protocols = { version = "=0.29.5", features = ["client", "unstable_protocols"] }
xkbcommon = "=0.5.1"
