[package]
name = "surface_coordinator"
version = "0.1.0"
edition = "2021"
publish = false

[dependencies]
smithay-client-toolkit = { version = "=0.19.2", default-features = false, features = ["calloop"] }
wayland-backend = "=0.3.17"
wayland-protocols = { version = "=0.32.13", features = ["client", "staging"] }
accesskit = "=0.25.1"
futures = "=0.3.34"
log = "=0.4.34"
thiserror = "=1.0.69"
