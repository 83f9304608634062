[package]
name = "cursor_clip"
version = "0.1.0"
edition = "2021"
publish = false

[dependencies]
bytes = "1"
indexmap = "2"
clap = "4"
env_logger = "*"
gtk4 = "*"
gtk4-layer-shell = "*"
libadwaita = "*"
libc = "0.2"
log = "0.4"
memmap2 = "*"
serde = { version = "1", features = ["derive"] }
serde_json = "1"
tokio = { version = "1", features = ["full"] }
wayland-client = "*"
wayland-protocols = { version = "*", features = ["client", "staging"] }
wayland-protocols-wlr = { version = "*", features = ["client"] }
