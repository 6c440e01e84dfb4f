[package]
name = "dmabuf_pipeline"
version = "0.1.0"
edition = "2021"
publish = false

[dependencies]
libc = "0.2"
nix = { version = "0.29", features = ["socket", "uio"] }
wayland-client = "0.31"
wayland-egl = "0.32"
wayland-protocols = { version = "0.32", features = ["client"] }
