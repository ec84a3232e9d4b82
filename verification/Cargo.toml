[package]
name = "screencap"
version = "0.1.0"
edition = "2021"
publish = false

[dependencies]
wayland-client = "0.31"
wayland-protocols = { version = "0.32", features = ["client", "staging"] }
wayland-protocols-wlr = { version = "0.3", features = ["client"] }
nix = { version = "0.30", features = ["fs", "mman"] }
signal-hook = "0.3"
