[package]
name = "stochos"
version = "0.1.0"
edition = "2021"
publish = false

[dependencies]
anyhow = "1"
nix = { version = "*", features = ["fs"] }
x11rb = { version = "*", features = ["xtest"] }
smithay-client-toolkit = { version = "*", default-features = false }
wayland-client = "*"
wayland-protocols = { version = "*", features = ["client", "unstable"] }
wayland-protocols-wlr = { version = "*", features = ["client"] }
